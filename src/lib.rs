//! A small journal service: entries with an identifier, free text and a
//! creation time, served over three HTTP routes. The library holds the
//! service's decisions (which route a request takes, what a storage outcome
//! turns into, which cross-origin headers a response carries), each with a
//! contract; reading requests, talking to the database and writing responses
//! is left to the program around it.
mod cors;
mod entry;
mod handlers;
mod http;
mod ident;
mod laws;
mod routes;
mod store;

pub use cors::{
    fairing_ran, fold_case, header_view, headers_view, same_name, same_name_exec,
    set_header, with_cors_headers, with_header, without_name, Info, Kind, CORS,
};
pub use entry::{EntryId, JournalEntry, Timestamp};
pub use handlers::{
    answers_create, answers_list, answers_lookup, create_entry, find_all_entries,
    find_entry_by_id, is_not_found_response, json_ok_with, not_found, not_found_text,
    rejected_body, unavailable, BodyError, NOT_FOUND_BODY,
};
pub use http::{
    is_client_error, is_server_error, is_success, ContentType, Header, Method, Payload, Response,
    STATUS_BAD_REQUEST, STATUS_NOT_FOUND, STATUS_OK, STATUS_SERVER_ERROR, STATUS_UNAVAILABLE,
    STATUS_UNPROCESSABLE,
};
pub use ident::{parse_entry_id, uuid_of, uuid_text_len};
pub use laws::{
    journal_route, lemma_create_then_lookup, lemma_empty_list, lemma_failed_create_reported,
    lemma_journal_routes, lemma_lookup_never_errors, lemma_malformed_id_not_routed,
    lemma_unmatched_request,
};
pub use routes::{
    entries_path, entry_path, format_matches, is_journal_service, mount_is, mount_route,
    pattern_matches, pattern_view, rocket, route_in, seg_views, segment_matches, Action, Mount,
    Route, Segment, Service,
};
pub use store::{create, find_all, find_by_id, found_of, listed_of, StoreError};
