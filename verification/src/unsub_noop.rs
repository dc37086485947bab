//! An unsubscribe handler for subscriptions that have nothing to undo.

use crate::errors::UnSubError;
use vstd::prelude::*;

verus! {

/// Handler that unsubscribes from nothing. It either succeeds, or reports
/// that there is no handler, as it was set up.
#[derive(Debug, Clone, Copy)]
pub struct UnSubNoop {
    should_err: bool,
}

impl UnSubNoop {
    /// A handler that reports [`UnSubError::NoHandler`] if `should_err` is
    /// set, and succeeds if it is not.
    pub fn new(should_err: bool) -> (handler: Self)
        ensures
            handler.reports_no_handler() == should_err,
    {
        UnSubNoop { should_err }
    }

    /// Whether the handler reports that there is no handler.
    pub closed spec fn reports_no_handler(&self) -> bool {
        self.should_err
    }

    /// Does nothing, and ends as the handler was set up to.
    pub fn unsubscribe(&self) -> (done: Result<(), UnSubError>)
        ensures
            done == if self.reports_no_handler() {
                Err::<(), UnSubError>(UnSubError::NoHandler)
            } else {
                Ok::<(), UnSubError>(())
            },
    {
        if self.should_err {
            return Err(UnSubError::NoHandler);
        }
        Ok(())
    }
}

} // verus!
