//! Failures of the Redis stream adapter.

use crate::errors::BrokerError;
use vstd::prelude::*;
use vstd::std_specs::convert::FromSpecImpl;

verus! {

/// A failed call as the Redis server or the connection reported it.
#[derive(Debug, Clone)]
pub struct RedisFailure {
    /// The error code the server sent (`BUSYGROUP`, `NOGROUP`, ...), when it sent one.
    pub code: Option<String>,
    /// The failure rendered as text.
    pub detail: String,
}

impl RedisFailure {
    /// A failure with the given code and text.
    pub fn new(code: Option<String>, detail: String) -> (failure: Self)
        ensures
            failure.code == code,
            failure.detail == detail,
    {
        RedisFailure { code, detail }
    }

    /// The text shown for this failure.
    pub open spec fn text(self) -> Seq<char> {
        self.detail@
    }

    /// The failure rendered as text.
    pub fn to_string(&self) -> (text: String)
        ensures
            text@ == self.text(),
    {
        self.detail.clone()
    }
}

/// Errors of a publish to a Redis stream.
#[derive(Debug, Clone)]
pub enum PublishError {
    /// The consumer group could not be created.
    GroupCreation(RedisFailure),
    /// The message could not be appended to the stream.
    Push(RedisFailure),
}

impl PublishError {
    /// The text shown for this error.
    pub open spec fn text(self) -> Seq<char> {
        match self {
            PublishError::GroupCreation(failure) => "Group Creation Error: "@ + failure.text(),
            PublishError::Push(failure) => "Message Pushing Error: "@ + failure.text(),
        }
    }

    /// The error rendered as text.
    pub fn to_string(&self) -> (text: String)
        ensures
            text@ == self.text(),
    {
        match self {
            PublishError::GroupCreation(failure) => String::from_str("Group Creation Error: ").concat(
                failure.detail.as_str(),
            ),
            PublishError::Push(failure) => String::from_str("Message Pushing Error: ").concat(
                failure.detail.as_str(),
            ),
        }
    }
}

impl From<PublishError> for BrokerError {
    fn from(err: PublishError) -> (wrapped: Self) {
        BrokerError::RedisPublish(err)
    }
}

impl FromSpecImpl<PublishError> for BrokerError {
    open spec fn obeys_from_spec() -> bool {
        true
    }

    open spec fn from_spec(err: PublishError) -> Self {
        BrokerError::RedisPublish(err)
    }
}

/// Errors of a subscription to a Redis stream.
#[derive(Debug, Clone)]
pub enum SubscribeError {
    /// The consumer group could not be created.
    GroupCreation(RedisFailure),
    /// Reading new entries failed.
    Read(RedisFailure),
    /// Claiming stalled entries failed.
    AutoClaim(RedisFailure),
}

impl SubscribeError {
    /// The text shown for this error.
    pub open spec fn text(self) -> Seq<char> {
        match self {
            SubscribeError::GroupCreation(failure) => "Group Creation Error: "@ + failure.text(),
            SubscribeError::Read(failure) => "Message Reading Error: "@ + failure.text(),
            SubscribeError::AutoClaim(failure) => "Message Claiming Error: "@ + failure.text(),
        }
    }

    /// The error rendered as text.
    pub fn to_string(&self) -> (text: String)
        ensures
            text@ == self.text(),
    {
        match self {
            SubscribeError::GroupCreation(failure) => String::from_str(
                "Group Creation Error: ",
            ).concat(failure.detail.as_str()),
            SubscribeError::Read(failure) => String::from_str("Message Reading Error: ").concat(
                failure.detail.as_str(),
            ),
            SubscribeError::AutoClaim(failure) => String::from_str(
                "Message Claiming Error: ",
            ).concat(failure.detail.as_str()),
        }
    }
}

impl From<SubscribeError> for BrokerError {
    fn from(err: SubscribeError) -> (wrapped: Self) {
        BrokerError::RedisSubscribe(err)
    }
}

impl FromSpecImpl<SubscribeError> for BrokerError {
    open spec fn obeys_from_spec() -> bool {
        true
    }

    open spec fn from_spec(err: SubscribeError) -> Self {
        BrokerError::RedisSubscribe(err)
    }
}

/// A failed acknowledgment of a stream entry.
#[derive(Debug, Clone)]
pub struct AckError(pub RedisFailure);

impl AckError {
    /// The text shown for this error.
    pub open spec fn text(self) -> Seq<char> {
        "Redis acknowledgment error: "@ + self.0.text()
    }

    /// The error rendered as text.
    pub fn to_string(&self) -> (text: String)
        ensures
            text@ == self.text(),
    {
        String::from_str("Redis acknowledgment error: ").concat(self.0.detail.as_str())
    }
}

impl From<AckError> for BrokerError {
    fn from(err: AckError) -> (wrapped: Self) {
        BrokerError::RedisAck(err)
    }
}

impl FromSpecImpl<AckError> for BrokerError {
    open spec fn obeys_from_spec() -> bool {
        true
    }

    open spec fn from_spec(err: AckError) -> Self {
        BrokerError::RedisAck(err)
    }
}

/// A failed removal of a consumer from its group.
#[derive(Debug, Clone)]
pub struct UnsubscribeError(pub RedisFailure);

impl UnsubscribeError {
    /// The text shown for this error.
    pub open spec fn text(self) -> Seq<char> {
        "Redis unsubscription error: "@ + self.0.text()
    }

    /// The error rendered as text.
    pub fn to_string(&self) -> (text: String)
        ensures
            text@ == self.text(),
    {
        String::from_str("Redis unsubscription error: ").concat(self.0.detail.as_str())
    }
}

impl From<UnsubscribeError> for BrokerError {
    fn from(err: UnsubscribeError) -> (wrapped: Self) {
        BrokerError::RedisUnsubscribe(err)
    }
}

impl FromSpecImpl<UnsubscribeError> for BrokerError {
    open spec fn obeys_from_spec() -> bool {
        true
    }

    open spec fn from_spec(err: UnsubscribeError) -> Self {
        BrokerError::RedisUnsubscribe(err)
    }
}

} // verus!
