//! What the server answers to the stream commands, as the driver hands it back.

use vstd::prelude::*;

verus! {

/// Value of one field of a stream entry.
#[derive(Debug, Clone)]
pub enum FieldValue {
    /// A bulk string: the bytes as they were appended.
    BulkString(Vec<u8>),
    /// Any other kind of value.
    Other,
}

/// One entry of a stream: its id and its fields.
///
/// The fields stand in the order the driver lists them; a name is looked up
/// from the front, so where no name occurs twice the order plays no part.
#[derive(Debug, Clone)]
pub struct StreamEntry {
    pub id: String,
    pub fields: Vec<(String, FieldValue)>,
}

/// The entries that one read returned for one stream.
#[derive(Debug, Clone)]
pub struct StreamKey {
    pub key: String,
    pub ids: Vec<StreamEntry>,
}

/// Reply to a claim of stalled entries.
#[derive(Debug, Clone)]
pub struct AutoClaimReply {
    /// Cursor from which the next claim goes on.
    pub next_stream_id: String,
    /// The entries now owned by the claiming consumer.
    pub claimed: Vec<StreamEntry>,
}

/// The value of the first field called `name`, if there is one.
pub open spec fn field_value(fields: Seq<(String, FieldValue)>, name: Seq<char>) -> Option<
    FieldValue,
>
    decreases fields.len(),
{
    if fields.len() == 0 {
        None
    } else if fields[0].0@ == name {
        Some(fields[0].1)
    } else {
        field_value(fields.drop_first(), name)
    }
}

/// All entries of a read, stream after stream.
pub open spec fn entries_of(keys: Seq<StreamKey>) -> Seq<StreamEntry> {
    keys.map_values(|key: StreamKey| key.ids@).flatten()
}

impl StreamEntry {
    /// An entry with the given id and fields.
    pub fn new(id: String, fields: Vec<(String, FieldValue)>) -> (entry: Self)
        ensures
            entry.id == id,
            entry.fields == fields,
    {
        StreamEntry { id, fields }
    }

    /// The bytes of the entry's field `name`, where that field is a bulk string.
    pub open spec fn bulk(self, name: Seq<char>) -> Option<Seq<u8>> {
        match field_value(self.fields@, name) {
            Some(FieldValue::BulkString(bytes)) => Some(bytes@),
            _ => None,
        }
    }

    /// Looks the field `name` up and copies its bytes, where it is a bulk string.
    pub fn bulk_string(&self, name: &String) -> (found: Option<Vec<u8>>)
        ensures
            found is Some == self.bulk(name@) is Some,
            found matches Some(bytes) ==> self.bulk(name@) == Some(bytes@),
    {
        let mut at: usize = 0;
        assert(self.fields@.skip(0) == self.fields@);
        while at < self.fields.len()
            invariant
                at <= self.fields.len(),
                field_value(self.fields@, name@) == field_value(
                    self.fields@.skip(at as int),
                    name@,
                ),
            decreases self.fields.len() - at,
        {
            let ghost rest = self.fields@.skip(at as int);
            assert(rest[0] == self.fields@[at as int]);
            assert(rest.drop_first() == self.fields@.skip(at + 1));
            if self.fields[at].0 == *name {
                return match &self.fields[at].1 {
                    FieldValue::BulkString(bytes) => Some(copy_bytes(bytes)),
                    FieldValue::Other => None,
                };
            }
            at += 1;
        }
        None
    }
}

/// A copy of the bytes.
pub(crate) fn copy_bytes(bytes: &Vec<u8>) -> (copy: Vec<u8>)
    ensures
        copy@ == bytes@,
{
    let copy = bytes.clone();
    assert(copy@ =~= bytes@);
    copy
}

/// Gathers the entries of a read, stream after stream.
pub fn flatten_keys(keys: Vec<StreamKey>) -> (entries: Vec<StreamEntry>)
    ensures
        entries@ == entries_of(keys@),
{
    let ghost lists = keys@.map_values(|key: StreamKey| key.ids@);
    let mut entries: Vec<StreamEntry> = Vec::new();
    for key in it: keys
        invariant
            it.seq() == keys@,
            lists == keys@.map_values(|key: StreamKey| key.ids@),
            entries@ == lists.take(it.index() as int).flatten(),
    {
        let ghost done = it.index() as int;
        let mut ids = key.ids;
        proof {
            assert(ids@ == lists[done]);
            assert(lists.take(done + 1) == lists.take(done).push(lists[done]));
            lists.take(done).lemma_flatten_push(lists[done]);
        }
        entries.append(&mut ids);
    }
    assert(lists.take(keys@.len() as int) == lists);
    entries
}

} // verus!
