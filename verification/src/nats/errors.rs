use crate::errors::BrokerError;
use vstd::prelude::*;

verus! {

/// Error of setting a [`SubFetcher`](super::SubFetcher) up.
#[derive(Debug, Clone)]
pub enum NatsSubFetcherError {
    /// The stream could not be found or created.
    JetStreamStreamCreation(BrokerError),
}

impl NatsSubFetcherError {
    /// The text shown for this error.
    pub open spec fn text(self) -> Seq<char> {
        match self {
            NatsSubFetcherError::JetStreamStreamCreation(err) =>
                "NATS JetStream Stream Creation Error: "@ + err.text(),
        }
    }

    /// The error rendered as text.
    pub fn to_string(&self) -> (text: String)
        ensures
            text@ == self.text(),
    {
        match self {
            NatsSubFetcherError::JetStreamStreamCreation(err) => String::from_str(
                "NATS JetStream Stream Creation Error: ",
            ).concat(err.to_string().as_str()),
        }
    }
}

} // verus!
