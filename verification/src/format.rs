//! Wire formats a payload can be encoded in.

use vstd::prelude::*;

verus! {

/// Serialization format of a message payload.
#[derive(Debug, Clone, Copy, PartialEq, Eq, Structural)]
pub enum Format {
    /// Compact self-describing binary encoding (MessagePack).
    MessagePack,
    /// UTF-8 JSON text.
    JSON,
}

impl Format {
    /// The characters of the format's name.
    pub open spec fn name(self) -> Seq<char> {
        match self {
            Format::MessagePack => "MessagePack"@,
            Format::JSON => "JSON"@,
        }
    }

    /// The format's name as text.
    pub fn to_string(&self) -> (text: String)
        ensures
            text@ == self.name(),
    {
        match self {
            Format::MessagePack => "MessagePack".to_owned(),
            Format::JSON => "JSON".to_owned(),
        }
    }
}

} // verus!
