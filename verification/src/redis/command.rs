//! The stream commands the adapter asks its driver to send.
//!
//! Each value names one Redis command with its arguments; the driver sends
//! it over its own connection and hands the reply back.

use vstd::prelude::*;

verus! {

/// `XGROUP CREATE stream group start_id MKSTREAM`: creates the group, and
/// the stream with it when the stream is missing.
#[derive(Debug, Clone)]
pub struct GroupCreate {
    pub stream: String,
    pub group: String,
    /// Entry from which the new group starts to deliver.
    pub start_id: String,
}

/// `XAUTOCLAIM stream group consumer min_idle start COUNT count`: hands
/// entries that have been pending for `min_idle` milliseconds to `consumer`.
#[derive(Debug, Clone)]
pub struct AutoClaim {
    pub stream: String,
    pub group: String,
    pub consumer: String,
    pub min_idle: usize,
    /// Cursor from which the pending entries are scanned.
    pub start: String,
    pub count: usize,
}

/// `XREADGROUP GROUP group consumer COUNT count BLOCK block STREAMS stream id`.
#[derive(Debug, Clone)]
pub struct GroupRead {
    pub stream: String,
    /// Position to read from; `>` asks for entries never delivered to the group.
    pub id: String,
    pub group: String,
    pub consumer: String,
    pub count: usize,
    pub block: usize,
}

/// `XGROUP DELCONSUMER stream group consumer`.
#[derive(Debug, Clone)]
pub struct ConsumerDelete {
    pub stream: String,
    pub group: String,
    pub consumer: String,
}

/// `XADD stream MAXLEN ~ max_len id field payload`.
#[derive(Debug, Clone)]
pub struct Append {
    pub stream: String,
    /// Length to which the stream is trimmed, approximately.
    pub max_len: usize,
    /// Entry id; `*` lets the server choose it.
    pub id: String,
    pub field: String,
    pub payload: Vec<u8>,
}

/// `XACK stream group id`.
#[derive(Debug, Clone)]
pub struct Acknowledge {
    pub stream: String,
    pub group: String,
    pub id: String,
}

/// Id that starts a new group at the end of its stream.
pub open spec fn start_at_end() -> Seq<char> {
    "$"@
}

/// Id that reads the entries never delivered to the group.
pub open spec fn never_delivered() -> Seq<char> {
    ">"@
}

/// Id that lets the server number a new entry.
pub open spec fn server_chosen() -> Seq<char> {
    "*"@
}

/// Cursor at the start of the pending entries.
pub open spec fn start_of_pending() -> Seq<char> {
    "0-0"@
}

/// Name of the field that carries a message's payload.
pub open spec fn data_field() -> Seq<char> {
    "data"@
}

} // verus!
