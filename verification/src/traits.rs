//! What a subscription asks of its options.

use crate::format::Format;
use vstd::prelude::*;

verus! {

/// Options of a subscription: whether deliveries are acknowledged before
/// they are handed on, and the format their payloads are encoded in.
///
/// The options are asked anew for every delivery. They are meant to stay
/// as they are once a subscription has started.
pub trait SubOptTrait {
    /// Whether deliveries are acknowledged before they are handed on.
    fn get_auto_ack(&self) -> bool;

    /// The format of the payloads.
    fn get_format(&self) -> Format;
}

/// Plain subscription options.
#[derive(Debug, Clone, Copy)]
pub struct SubOptions {
    pub format: Format,
    pub auto_ack: bool,
}

impl SubOptions {
    /// Options with the given format and acknowledgment mode.
    pub fn new(format: Format, auto_ack: bool) -> (options: Self)
        ensures
            options.format == format,
            options.auto_ack == auto_ack,
    {
        SubOptions { format, auto_ack }
    }
}

impl SubOptTrait for SubOptions {
    fn get_auto_ack(&self) -> (on: bool)
        ensures
            on == self.auto_ack,
    {
        self.auto_ack
    }

    fn get_format(&self) -> (format: Format)
        ensures
            format == self.format,
    {
        self.format
    }
}

} // verus!
