use vstd::prelude::*;

use crate::entry::EntryId;

verus! {

/// The 128 bits that the `uuid` crate reads from a text, or `None` where it
/// refuses the text. It depends on the characters alone.
pub uninterp spec fn uuid_of(s: Seq<char>) -> Option<u128>;

/// The lengths, in characters, of the texts that can name a UUID: the simple
/// form, the hyphenated form, and the hyphenated form after `urn:uuid:`.
pub open spec fn uuid_text_len(n: nat) -> bool {
    n == 32 || n == 36 || n == 45
}

/// Relies on `uuid::Uuid::parse_str` (the hyphenated, simple and URN forms)
/// and `uuid::Uuid::as_u128`: the parsed value, or `None` on any error. The
/// parser refuses every text of another length (a text with a character
/// outside ASCII is refused whatever its length).
#[verifier::external_body]
fn parse_uuid(s: &str) -> (r: Option<u128>)
    ensures
        r == uuid_of(s@),
        !uuid_text_len(s@.len()) ==> r.is_none(),
{
    uuid::Uuid::parse_str(s).ok().map(|u| u.as_u128())
}

/// Reads an entry identifier from a path segment.
pub fn parse_entry_id(s: &str) -> (r: Option<EntryId>)
    ensures
        r == match uuid_of(s@) {
            Some(v) => Some(EntryId { value: v }),
            None => None,
        },
        !uuid_text_len(s@.len()) ==> r.is_none(),
{
    match parse_uuid(s) {
        Some(v) => Some(EntryId { value: v }),
        None => None,
    }
}

} // verus!
