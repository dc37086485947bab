//! The typed publisher: from an encoded value to what is sent.

use crate::errors::{EncodeError, PubError};
use crate::format::Format;
use crate::payload::{payload_bytes, payload_from_vec};
use bytes::Bytes;
use vstd::prelude::*;
use vstd::std_specs::convert::FromSpec;

verus! {

/// What a [`Pub`] holds.
pub struct PubView {
    /// Destination of every message.
    pub subject: Seq<char>,
    /// Format in which values are encoded.
    pub format: Format,
}

/// A payload on its way to a destination.
#[derive(Debug)]
pub struct Outbound {
    pub topic: String,
    pub payload: Bytes,
}

/// Publisher of values to one destination, in one format.
#[derive(Debug, Clone)]
pub struct Pub {
    subject: String,
    format: Format,
}

impl View for Pub {
    type V = PubView;

    closed spec fn view(&self) -> PubView {
        PubView { subject: self.subject@, format: self.format }
    }
}

impl Pub {
    /// A publisher to `subject`, in `format`.
    pub fn new(subject: String, format: Format) -> (publisher: Self)
        ensures
            publisher@ == (PubView { subject: subject@, format }),
    {
        Pub { subject, format }
    }

    /// The format in which the value of a publish is to be encoded.
    pub fn format(&self) -> (format: Format)
        ensures
            format == self@.format,
    {
        self.format
    }

    /// What a publish sends, given how the encoding of its value under
    /// [`format`](Self::format) went: the encoded bytes, to the publisher's
    /// destination. A value that did not encode ends the publish with that
    /// failure, and nothing is sent.
    pub fn publish(&self, encoded: Result<Vec<u8>, EncodeError>) -> (sent: Result<
        Outbound,
        PubError,
    >)
        ensures
            match encoded {
                Ok(bytes) => sent matches Ok(out) && out.topic@ == self@.subject && payload_bytes(
                    out.payload,
                ) == bytes@,
                Err(err) => sent == Err::<Outbound, PubError>(PubError::from_spec(err)),
            },
    {
        match encoded {
            Ok(bytes) => Ok(
                Outbound { topic: self.subject.clone(), payload: payload_from_vec(bytes) },
            ),
            Err(err) => Err(PubError::from(err)),
        }
    }
}

} // verus!
