//! Settings of the Redis publisher and subscriber.

mod publish;
mod subscribe;

pub use self::publish::{PublisherConfig, PublisherConfigView};
pub use self::subscribe::{SubscriberConfig, SubscriberConfigView};
