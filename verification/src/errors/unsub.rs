use super::broker::BrokerError;
use super::codec::headed;
use vstd::prelude::*;
use vstd::std_specs::convert::FromSpecImpl;

verus! {

/// Error of an unsubscribe.
#[derive(Debug, Clone)]
pub enum UnSubError {
    /// The broker did not remove the consumer.
    BrokerError(BrokerError),
    /// No unsubscribe handler was given, and the subscriber was set up to
    /// report that.
    NoHandler,
}

impl UnSubError {
    /// The text shown for this error.
    pub open spec fn text(self) -> Seq<char> {
        match self {
            UnSubError::BrokerError(err) => "Broker error: "@ + err.text(),
            UnSubError::NoHandler => "No unsubscribe handler"@,
        }
    }

    /// The error rendered as text.
    pub fn to_string(&self) -> (text: String)
        ensures
            text@ == self.text(),
    {
        match self {
            UnSubError::BrokerError(err) => headed("Broker error: ", err.to_string()),
            UnSubError::NoHandler => String::from_str("No unsubscribe handler"),
        }
    }
}

impl From<BrokerError> for UnSubError {
    fn from(err: BrokerError) -> (wrapped: Self) {
        UnSubError::BrokerError(err)
    }
}

impl FromSpecImpl<BrokerError> for UnSubError {
    open spec fn obeys_from_spec() -> bool {
        true
    }

    open spec fn from_spec(err: BrokerError) -> Self {
        UnSubError::BrokerError(err)
    }
}

} // verus!
