//! Errors of the four operations: acknowledge, publish, subscribe, unsubscribe.

mod ack;
mod broker;
mod codec;
mod publish;
mod sub;
mod unsub;

pub use self::ack::AckError;
pub use self::broker::BrokerError;
pub use self::codec::{headed, DecodeError, EncodeError};
pub use self::publish::PubError;
pub use self::sub::SubError;
pub use self::unsub::UnSubError;
