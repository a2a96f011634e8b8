use vstd::prelude::*;

use crate::entry::JournalEntry;

verus! {

/// The request methods the service distinguishes.
#[derive(Clone, Copy, Debug, PartialEq, Eq, Structural)]
pub enum Method {
    Get,
    Put,
    Post,
    Delete,
    Options,
    Head,
    Trace,
    Connect,
    Patch,
}

/// The media type of a request or response body, as far as the service cares.
#[derive(Clone, Copy, Debug, PartialEq, Eq, Structural)]
pub enum ContentType {
    Json,
    Plain,
    Other,
}

/// One response header.
#[derive(Debug, PartialEq, Eq)]
pub struct Header {
    pub name: String,
    pub value: String,
}

/// What a response carries. Entries are written out as JSON by the program
/// that sends the response; `None` is written as `null`.
#[derive(Debug, PartialEq, Eq)]
pub enum Payload {
    Entry(Option<JournalEntry>),
    Entries(Option<Vec<JournalEntry>>),
    Text(String),
}

/// A response before it is written out.
#[derive(Debug, PartialEq, Eq)]
pub struct Response {
    pub status: u16,
    pub content_type: Option<ContentType>,
    pub headers: Vec<Header>,
    pub payload: Payload,
}

pub const STATUS_OK: u16 = 200;

pub const STATUS_BAD_REQUEST: u16 = 400;

pub const STATUS_NOT_FOUND: u16 = 404;

pub const STATUS_UNPROCESSABLE: u16 = 422;

pub const STATUS_SERVER_ERROR: u16 = 500;

pub const STATUS_UNAVAILABLE: u16 = 503;

/// A status in the client-error class.
pub open spec fn is_client_error(status: u16) -> bool {
    400 <= status < 500
}

/// A status in the success class.
pub open spec fn is_success(status: u16) -> bool {
    200 <= status < 300
}

/// A status in the server-error class.
pub open spec fn is_server_error(status: u16) -> bool {
    500 <= status < 600
}

} // verus!
