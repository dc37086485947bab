use super::ack::AckError;
use super::broker::BrokerError;
use super::codec::{headed, json_error_text, msgpack_decode_error_text, DecodeError};
use vstd::prelude::*;
use vstd::std_specs::convert::FromSpecImpl;

verus! {

/// Error of a subscription, or of one of its items.
#[derive(Debug)]
pub enum SubError {
    /// The broker failed.
    BrokerError(BrokerError),
    /// The item could not be acknowledged.
    AckError(AckError),
    /// The payload is not the JSON text of a value of the expected type.
    Json(serde_json::Error),
    /// The payload is not the MessagePack form of a value of the expected type.
    MessagePackDecode(rmp_serde::decode::Error),
}

impl SubError {
    /// How the text shown for this error begins.
    pub open spec fn heading(self) -> Seq<char> {
        match self {
            SubError::BrokerError(_) => "Broker error: "@,
            SubError::AckError(_) => "Acknowledgment error: "@,
            SubError::Json(_) => "JSON error: "@,
            SubError::MessagePackDecode(_) => "MessagePack decode error: "@,
        }
    }

    /// The text of the cause, where the cause is an error of this library.
    pub open spec fn cause(self) -> Option<Seq<char>> {
        match self {
            SubError::BrokerError(err) => Some(err.text()),
            SubError::AckError(err) => Some(err.text()),
            SubError::Json(_) => None,
            SubError::MessagePackDecode(_) => None,
        }
    }

    /// The error rendered as text: the heading, then the cause as the cause
    /// renders itself.
    pub fn to_string(&self) -> (text: String)
        ensures
            self.heading().is_prefix_of(text@),
            self.cause() matches Some(cause) ==> text@ == self.heading() + cause,
    {
        match self {
            SubError::BrokerError(err) => headed("Broker error: ", err.to_string()),
            SubError::AckError(err) => headed("Acknowledgment error: ", err.to_string()),
            SubError::Json(err) => headed("JSON error: ", json_error_text(err)),
            SubError::MessagePackDecode(err) => headed(
                "MessagePack decode error: ",
                msgpack_decode_error_text(err),
            ),
        }
    }
}

impl From<BrokerError> for SubError {
    fn from(err: BrokerError) -> (wrapped: Self) {
        SubError::BrokerError(err)
    }
}

impl FromSpecImpl<BrokerError> for SubError {
    open spec fn obeys_from_spec() -> bool {
        true
    }

    open spec fn from_spec(err: BrokerError) -> Self {
        SubError::BrokerError(err)
    }
}

impl From<AckError> for SubError {
    fn from(err: AckError) -> (wrapped: Self) {
        SubError::AckError(err)
    }
}

impl FromSpecImpl<AckError> for SubError {
    open spec fn obeys_from_spec() -> bool {
        true
    }

    open spec fn from_spec(err: AckError) -> Self {
        SubError::AckError(err)
    }
}

impl From<DecodeError> for SubError {
    fn from(err: DecodeError) -> (wrapped: Self) {
        match err {
            DecodeError::Json(cause) => SubError::Json(cause),
            DecodeError::MessagePack(cause) => SubError::MessagePackDecode(cause),
        }
    }
}

impl FromSpecImpl<DecodeError> for SubError {
    open spec fn obeys_from_spec() -> bool {
        true
    }

    open spec fn from_spec(err: DecodeError) -> Self {
        match err {
            DecodeError::Json(cause) => SubError::Json(cause),
            DecodeError::MessagePack(cause) => SubError::MessagePackDecode(cause),
        }
    }
}

} // verus!
