use vstd::prelude::*;

use crate::entry::JournalEntry;
use crate::http::{
    ContentType, Payload, Response, STATUS_BAD_REQUEST, STATUS_NOT_FOUND, STATUS_OK,
    STATUS_SERVER_ERROR, STATUS_UNAVAILABLE, STATUS_UNPROCESSABLE,
};
use crate::store::StoreError;

verus! {

/// The body of every not-found response.
pub const NOT_FOUND_BODY: &'static str = "{\"status\":\"error\",\"reason\":\"Resource was not found.\"}";

/// The characters of the not-found body.
pub open spec fn not_found_text() -> Seq<char> {
    NOT_FOUND_BODY@
}

/// Why a request body could not be read as an entry.
#[derive(Clone, Copy, Debug, PartialEq, Eq, Structural)]
pub enum BodyError {
    /// The body is not JSON.
    Syntax,
    /// The body is JSON but not an entry (a field is missing or of another type).
    Data,
}

/// `r` is a JSON response with status 200, no headers, and this payload.
pub open spec fn json_ok_with(r: Response, payload: Payload) -> bool {
    &&& r.status == STATUS_OK
    &&& r.content_type == Some(ContentType::Json)
    &&& r.headers@.len() == 0
    &&& r.payload == payload
}

/// `r` answers a list request whose rows are `listed` (`None`: the store failed).
pub open spec fn answers_list(listed: Option<Vec<JournalEntry>>, r: Response) -> bool {
    json_ok_with(r, Payload::Entries(listed))
}

/// `r` answers a lookup that found `found`.
pub open spec fn answers_lookup(found: Option<JournalEntry>, r: Response) -> bool {
    json_ok_with(r, Payload::Entry(found))
}

/// `r` answers a create whose insert gave `created`.
pub open spec fn answers_create(created: Result<JournalEntry, StoreError>, r: Response) -> bool {
    match created {
        Ok(e) => json_ok_with(r, Payload::Entry(Some(e))),
        Err(err) => {
            &&& r.status == match err {
                StoreError::Unavailable => STATUS_UNAVAILABLE,
                StoreError::Failed => STATUS_SERVER_ERROR,
            }
            &&& r.content_type == Some(ContentType::Json)
            &&& r.headers@.len() == 0
            &&& r.payload == Payload::Entry(None)
        },
    }
}

/// `r` is the not-found response: status 404 and the fixed JSON envelope.
pub open spec fn is_not_found_response(r: Response) -> bool {
    &&& r.status == STATUS_NOT_FOUND
    &&& r.content_type == Some(ContentType::Json)
    &&& r.headers@.len() == 0
    &&& r.payload matches Payload::Text(t) && t@ == not_found_text()
}

/// A JSON response with status 200.
fn json_ok(payload: Payload) -> (r: Response)
    ensures
        r.status == STATUS_OK,
        r.content_type == Some(ContentType::Json),
        r.headers@.len() == 0,
        r.payload == payload,
{
    Response { status: STATUS_OK, content_type: Some(ContentType::Json), headers: Vec::new(), payload }
}

/// The answer to a list request: the rows, or `null` where the store failed.
pub fn find_all_entries(listed: Option<Vec<JournalEntry>>) -> (r: Response)
    ensures
        answers_list(listed, r),
{
    json_ok(Payload::Entries(listed))
}

/// The answer to a lookup: the entry, or `null` where there is none.
pub fn find_entry_by_id(found: Option<JournalEntry>) -> (r: Response)
    ensures
        answers_lookup(found, r),
{
    json_ok(Payload::Entry(found))
}

/// The answer to a create: the stored entry, or a server error (503 where no
/// connection could be had, 500 where the insert failed) with a `null` body.
pub fn create_entry(created: Result<JournalEntry, StoreError>) -> (r: Response)
    ensures
        answers_create(created, r),
{
    match created {
        Ok(e) => json_ok(Payload::Entry(Some(e))),
        Err(err) => {
            let status: u16 = match err {
                StoreError::Unavailable => STATUS_UNAVAILABLE,
                StoreError::Failed => STATUS_SERVER_ERROR,
            };
            Response {
                status,
                content_type: Some(ContentType::Json),
                headers: Vec::new(),
                payload: Payload::Entry(None),
            }
        },
    }
}

/// The answer to a request that no route takes.
pub fn not_found() -> (r: Response)
    ensures
        is_not_found_response(r),
{
    Response {
        status: STATUS_NOT_FOUND,
        content_type: Some(ContentType::Json),
        headers: Vec::new(),
        payload: Payload::Text(String::from_str(NOT_FOUND_BODY)),
    }
}

/// The answer to a read request when no database connection could be had.
pub fn unavailable() -> (r: Response)
    ensures
        r.status == STATUS_UNAVAILABLE,
        r.content_type.is_none(),
        r.headers@.len() == 0,
        r.payload matches Payload::Text(t) && t@.len() == 0,
{
    Response {
        status: STATUS_UNAVAILABLE,
        content_type: None,
        headers: Vec::new(),
        payload: Payload::Text(String::new()),
    }
}

/// The answer to a create whose body is not an entry: 400 for a body that is
/// not JSON, 422 for JSON of another shape. The store is not reached.
pub fn rejected_body(err: BodyError) -> (r: Response)
    ensures
        r.status == match err {
            BodyError::Syntax => STATUS_BAD_REQUEST,
            BodyError::Data => STATUS_UNPROCESSABLE,
        },
        r.content_type.is_none(),
        r.headers@.len() == 0,
        r.payload matches Payload::Text(t) && t@.len() == 0,
{
    let status: u16 = match err {
        BodyError::Syntax => STATUS_BAD_REQUEST,
        BodyError::Data => STATUS_UNPROCESSABLE,
    };
    Response { status, content_type: None, headers: Vec::new(), payload: Payload::Text(String::new()) }
}

} // verus!
