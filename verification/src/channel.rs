//! What the raw channels of all brokers share.

use vstd::prelude::*;

verus! {

/// Where the subscribing side of a raw channel stands.
#[derive(Debug, Clone, Copy, PartialEq, Eq, Structural)]
pub enum Phase {
    /// The broker-side state has not been provisioned yet.
    Uninitialized,
    /// The state is there, and the channel is polled.
    Polling,
    /// The consumer has left. Nothing leads out of this phase.
    Unsubscribed,
}

} // verus!
