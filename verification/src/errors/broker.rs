use crate::redis::errors::{
    AckError as RedisAckError, PublishError, SubscribeError, UnsubscribeError,
};
use vstd::prelude::*;

verus! {

/// Carrier of a failure that a broker reported.
///
/// The operation-scoped errors hold one of these, so that none of them
/// needs a variant per broker.
#[derive(Debug, Clone)]
pub enum BrokerError {
    /// A Redis publish failed.
    RedisPublish(PublishError),
    /// A Redis subscription failed.
    RedisSubscribe(SubscribeError),
    /// A Redis acknowledgment failed.
    RedisAck(RedisAckError),
    /// Removing a Redis consumer failed.
    RedisUnsubscribe(UnsubscribeError),
    /// A failure of another broker, as that broker's client rendered it.
    Other(String),
}

impl BrokerError {
    /// Wraps a failure that a broker's client rendered as text.
    pub fn new(description: String) -> (err: Self)
        ensures
            err == BrokerError::Other(description),
    {
        BrokerError::Other(description)
    }

    /// The text shown for this error: that of the failure it carries.
    pub open spec fn text(self) -> Seq<char> {
        match self {
            BrokerError::RedisPublish(err) => err.text(),
            BrokerError::RedisSubscribe(err) => err.text(),
            BrokerError::RedisAck(err) => err.text(),
            BrokerError::RedisUnsubscribe(err) => err.text(),
            BrokerError::Other(description) => description@,
        }
    }

    /// The error rendered as text.
    pub fn to_string(&self) -> (text: String)
        ensures
            text@ == self.text(),
    {
        match self {
            BrokerError::RedisPublish(err) => err.to_string(),
            BrokerError::RedisSubscribe(err) => err.to_string(),
            BrokerError::RedisAck(err) => err.to_string(),
            BrokerError::RedisUnsubscribe(err) => err.to_string(),
            BrokerError::Other(description) => description.clone(),
        }
    }
}

} // verus!
