use super::broker::BrokerError;
use super::codec::{headed, json_error_text, msgpack_encode_error_text, EncodeError};
use vstd::prelude::*;
use vstd::std_specs::convert::FromSpecImpl;

verus! {

/// Error of a publish.
#[derive(Debug)]
pub enum PubError {
    /// The broker did not take the message.
    BrokerError(BrokerError),
    /// The value has no JSON form.
    Json(serde_json::Error),
    /// The value has no MessagePack form.
    MessagePackEncode(rmp_serde::encode::Error),
}

impl PubError {
    /// How the text shown for this error begins.
    pub open spec fn heading(self) -> Seq<char> {
        match self {
            PubError::BrokerError(_) => "Broker error: "@,
            PubError::Json(_) => "JSON error: "@,
            PubError::MessagePackEncode(_) => "MessagePack encode error: "@,
        }
    }

    /// The text of the cause, where the cause is an error of this library.
    pub open spec fn cause(self) -> Option<Seq<char>> {
        match self {
            PubError::BrokerError(err) => Some(err.text()),
            PubError::Json(_) => None,
            PubError::MessagePackEncode(_) => None,
        }
    }

    /// The error rendered as text: the heading, then the cause as the cause
    /// renders itself.
    pub fn to_string(&self) -> (text: String)
        ensures
            self.heading().is_prefix_of(text@),
            self.cause() matches Some(cause) ==> text@ == self.heading() + cause,
    {
        match self {
            PubError::BrokerError(err) => headed("Broker error: ", err.to_string()),
            PubError::Json(err) => headed("JSON error: ", json_error_text(err)),
            PubError::MessagePackEncode(err) => headed(
                "MessagePack encode error: ",
                msgpack_encode_error_text(err),
            ),
        }
    }
}

impl From<BrokerError> for PubError {
    fn from(err: BrokerError) -> (wrapped: Self) {
        PubError::BrokerError(err)
    }
}

impl FromSpecImpl<BrokerError> for PubError {
    open spec fn obeys_from_spec() -> bool {
        true
    }

    open spec fn from_spec(err: BrokerError) -> Self {
        PubError::BrokerError(err)
    }
}

impl From<EncodeError> for PubError {
    fn from(err: EncodeError) -> (wrapped: Self) {
        match err {
            EncodeError::Json(cause) => PubError::Json(cause),
            EncodeError::MessagePack(cause) => PubError::MessagePackEncode(cause),
        }
    }
}

impl FromSpecImpl<EncodeError> for PubError {
    open spec fn obeys_from_spec() -> bool {
        true
    }

    open spec fn from_spec(err: EncodeError) -> Self {
        match err {
            EncodeError::Json(cause) => PubError::Json(cause),
            EncodeError::MessagePack(cause) => PubError::MessagePackEncode(cause),
        }
    }
}

} // verus!
