//! An acknowledgment handle that acknowledges nothing.

use crate::errors::AckError;
use vstd::prelude::*;

verus! {

/// Handle for deliveries of a channel that takes no acknowledgment: to
/// acknowledge through it does nothing, and succeeds.
#[derive(Debug, Clone, Copy)]
pub struct AckNoop;

impl AckNoop {
    /// Succeeds, and tells no broker.
    pub fn ack(&self) -> (done: Result<(), AckError>)
        ensures
            done is Ok,
    {
        Ok(())
    }
}

} // verus!
