//! Broker-agnostic publish/subscribe core.
//!
//! The crate holds the decisions of a typed publish/subscribe layer over
//! message brokers, and none of the input and output. A publisher encodes
//! a value and hands the bytes to a raw channel; a raw channel polls its
//! broker and yields byte payloads, each with a handle that acknowledges
//! it; the subscription engine acknowledges and decodes each payload and
//! hands the value on. Whatever talks to a broker, awaits, or runs a
//! value's own encoder is left to a driver: the types here say what the
//! driver is to send or do next, take what came of it, and say what that
//! comes to.
//!
//! - [`publish`] and [`sub`]: the typed publisher and the subscription
//!   engine, with what holds of every subscription.
//! - [`redis`]: streams with consumer groups, where stalled entries are
//!   claimed from a cursor and read together with new ones.
//! - [`nats`]: JetStream, a durable stream read through a durable pull
//!   consumer.
//! - [`errors`]: the errors of the four operations, each able to carry a
//!   broker's failure.

pub mod ack_noop;
pub mod channel;
pub mod errors;
pub mod format;
pub mod nats;
pub mod payload;
pub mod publish;
pub mod redis;
pub mod sub;
pub mod traits;
pub mod unsub_noop;

pub use ack_noop::AckNoop;
pub use format::Format;
pub use publish::Pub;
pub use sub::Sub;
pub use traits::SubOptTrait;
pub use unsub_noop::UnSubNoop;
