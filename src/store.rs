use vstd::prelude::*;

use crate::entry::JournalEntry;

verus! {

/// Why a storage operation failed.
#[derive(Clone, Copy, Debug, PartialEq, Eq, Structural)]
pub enum StoreError {
    /// No connection could be had from the pool.
    Unavailable,
    /// The database refused or failed the statement.
    Failed,
}

/// What a lookup yields from the store's answer: the row if there is one;
/// nothing where there is none or the query failed.
pub open spec fn found_of(fetched: Result<Option<JournalEntry>, StoreError>) -> Option<JournalEntry> {
    match fetched {
        Ok(found) => found,
        Err(_) => None,
    }
}

/// What a listing yields from the store's answer: the rows, or nothing where
/// the query failed.
pub open spec fn listed_of(loaded: Result<Vec<JournalEntry>, StoreError>) -> Option<Vec<JournalEntry>> {
    match loaded {
        Ok(rows) => Some(rows),
        Err(_) => None,
    }
}

/// Lookup by primary key. A missing row and a failed query both come out as
/// `None`: a read never reports an error to the client.
pub fn find_by_id(fetched: Result<Option<JournalEntry>, StoreError>) -> (r: Option<JournalEntry>)
    ensures
        r == found_of(fetched),
{
    match fetched {
        Ok(found) => found,
        Err(_) => None,
    }
}

/// Every row of the table, in the store's order; `None` where the query failed.
pub fn find_all(loaded: Result<Vec<JournalEntry>, StoreError>) -> (r: Option<Vec<JournalEntry>>)
    ensures
        r == listed_of(loaded),
{
    match loaded {
        Ok(rows) => Some(rows),
        Err(_) => None,
    }
}

/// Insertion of one row. The row as stored comes back; a failure is handed to
/// the caller as it is, never turned into a halt of the process.
pub fn create(inserted: Result<JournalEntry, StoreError>) -> (r: Result<JournalEntry, StoreError>)
    ensures
        r == inserted,
{
    inserted
}

} // verus!
