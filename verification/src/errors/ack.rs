use super::broker::BrokerError;
use super::codec::headed;
use vstd::prelude::*;
use vstd::std_specs::convert::FromSpecImpl;

verus! {

/// Error of an acknowledgment.
#[derive(Debug, Clone)]
pub enum AckError {
    /// The broker did not take the acknowledgment.
    BrokerError(BrokerError),
}

impl AckError {
    /// The text shown for this error.
    pub open spec fn text(self) -> Seq<char> {
        match self {
            AckError::BrokerError(err) => "Broker error: "@ + err.text(),
        }
    }

    /// The error rendered as text.
    pub fn to_string(&self) -> (text: String)
        ensures
            text@ == self.text(),
    {
        match self {
            AckError::BrokerError(err) => headed("Broker error: ", err.to_string()),
        }
    }
}

impl From<BrokerError> for AckError {
    fn from(err: BrokerError) -> (wrapped: Self) {
        AckError::BrokerError(err)
    }
}

impl FromSpecImpl<BrokerError> for AckError {
    open spec fn obeys_from_spec() -> bool {
        true
    }

    open spec fn from_spec(err: BrokerError) -> Self {
        AckError::BrokerError(err)
    }
}

} // verus!
