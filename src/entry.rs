use vstd::prelude::*;

verus! {

/// The identifier of an entry: the 128 bits of a UUID, most significant first.
#[derive(Clone, Copy, Debug, PartialEq, Eq, Structural)]
pub struct EntryId {
    pub value: u128,
}

/// A point in time without a time zone: whole seconds since 1970-01-01T00:00:00
/// and the nanoseconds past that second.
#[derive(Clone, Copy, Debug, PartialEq, Eq, Structural)]
pub struct Timestamp {
    pub secs: i64,
    pub nanos: u32,
}

/// One journal entry. The store assigns `id` and `created` when the caller
/// leaves them out; once stored, an entry is never changed.
#[derive(Debug, PartialEq, Eq)]
pub struct JournalEntry {
    pub id: Option<EntryId>,
    pub content: String,
    pub created: Option<Timestamp>,
}

impl JournalEntry {
    /// An entry as a client submits it: only the text.
    pub fn new(content: String) -> (r: JournalEntry)
        ensures
            r.id.is_none(),
            r.content@ == content@,
            r.created.is_none(),
    {
        JournalEntry { id: None, content, created: None }
    }
}

} // verus!
