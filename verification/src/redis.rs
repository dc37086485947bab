//! Redis stream backend: consumer groups, reclaim of stalled entries, acknowledgment.

pub mod ack;
pub mod command;
pub mod config;
pub mod errors;
pub mod group_make;
pub mod publisher;
pub mod reply;
pub mod subscriber;

pub use self::ack::Ack;
pub use self::config::{PublisherConfig, SubscriberConfig};
pub use self::errors::PublishError;
pub use self::publisher::Publisher;
pub use self::subscriber::Subscriber;
