use vstd::prelude::*;

use crate::entry::{EntryId, JournalEntry};
use crate::cors::{fairing_ran, headers_view, with_cors_headers};
use crate::handlers::{
    answers_create, answers_list, answers_lookup, is_not_found_response, not_found_text,
};
use crate::http::{
    is_client_error, is_server_error, is_success, ContentType, Method, Payload, Response,
    STATUS_NOT_FOUND, STATUS_OK,
};
use crate::ident::uuid_of;
use crate::routes::{is_journal_service, route_in, Route, Service};
use crate::store::{found_of, listed_of, StoreError};

verus! {

/// The route the journal service gives a request, stated directly.
pub open spec fn journal_route(method: Method, ct: Option<ContentType>, segs: Seq<Seq<char>>) -> Route {
    let is_entries = segs == seq!["api"@, "entry"@];
    let is_entry = segs.len() == 3 && segs[0] == "api"@ && segs[1] == "entry"@ && segs[2].len() > 0;
    if method == Method::Get && is_entries {
        Route::List
    } else if method == Method::Get && is_entry && uuid_of(segs[2]).is_some() {
        Route::Lookup(EntryId { value: uuid_of(segs[2]).unwrap() })
    } else if method == Method::Post && ct == Some(ContentType::Json) && is_entries {
        Route::Create
    } else {
        Route::NotFound
    }
}

/// The journal service lists on `GET /api/entry`, looks up on
/// `GET /api/entry/<id>` where `<id>` parses as a UUID, creates on a JSON
/// `POST /api/entry`, and takes no other request.
pub proof fn lemma_journal_routes(
    s: Service,
    method: Method,
    ct: Option<ContentType>,
    segs: Seq<Seq<char>>,
)
    requires
        is_journal_service(s),
    ensures
        route_in(s.mounts@, method, ct, segs) == journal_route(method, ct, segs),
{
    reveal_with_fuel(route_in, 4);
    let m = s.mounts@;
    assert(m.drop_first()[0] == m[1]);
    assert(m.drop_first().drop_first()[0] == m[2]);
    assert(m.drop_first().drop_first().drop_first().len() == 0);
    let two = seq!["api"@, "entry"@];
    if segs.len() == 2 && segs[0] == "api"@ && segs[1] == "entry"@ {
        assert(segs =~= two);
    }
    if segs == two {
        assert(segs[0] == "api"@ && segs[1] == "entry"@);
    }
}

/// A lookup whose identifier does not parse never reaches the store: the
/// request takes no route, and its answer is the not-found response.
pub proof fn lemma_malformed_id_not_routed(s: Service, id: Seq<char>)
    requires
        is_journal_service(s),
        uuid_of(id).is_none(),
    ensures
        route_in(s.mounts@, Method::Get, None, seq!["api"@, "entry"@, id]) == Route::NotFound,
{
    lemma_journal_routes(s, Method::Get, None, seq!["api"@, "entry"@, id]);
    assert(seq!["api"@, "entry"@, id].len() == 3);
    assert(seq!["api"@, "entry"@, id] != seq!["api"@, "entry"@]);
}

/// An entry that the store returned from a create is, when the store hands the
/// same row back to a lookup, answered exactly as the create was answered;
/// and the lookup path made of its identifier leads to that identifier.
pub proof fn lemma_create_then_lookup(
    s: Service,
    e: JournalEntry,
    created: Response,
    looked_up: Response,
    id_text: Seq<char>,
)
    requires
        is_journal_service(s),
        answers_create(Ok(e), created),
        answers_lookup(found_of(Ok(Some(e))), looked_up),
    ensures
        created.status == STATUS_OK,
        looked_up.status == created.status,
        looked_up.payload == created.payload,
        created.payload == Payload::Entry(Some(e)),
        e.id matches Some(id) ==> (uuid_of(id_text) == Some(id.value) && id_text.len() > 0
            ==> route_in(s.mounts@, Method::Get, None, seq!["api"@, "entry"@, id_text])
            == Route::Lookup(id)),
{
    lemma_journal_routes(s, Method::Get, None, seq!["api"@, "entry"@, id_text]);
    assert(seq!["api"@, "entry"@, id_text].len() == 3);
    assert(seq!["api"@, "entry"@, id_text] != seq!["api"@, "entry"@]);
}

/// A lookup answers with status 200 whatever the store did: a missing row is
/// `null`, and so is a failed query; never an error response.
pub proof fn lemma_lookup_never_errors(
    fetched: Result<Option<JournalEntry>, StoreError>,
    r: Response,
)
    requires
        answers_lookup(found_of(fetched), r),
    ensures
        r.status == STATUS_OK,
        !(fetched matches Ok(Some(_))) ==> r.payload == Payload::Entry(None),
{
}

/// A listing of an empty table answers with status 200 and an empty sequence.
pub proof fn lemma_empty_list(rows: Vec<JournalEntry>, r: Response)
    requires
        rows@.len() == 0,
        answers_list(listed_of(Ok(rows)), r),
    ensures
        r.status == STATUS_OK,
        r.payload matches Payload::Entries(Some(v)) && v@.len() == 0,
{
}

/// A failed insert is answered with a server error and a `null` body: it is
/// reported to the client and the service goes on.
pub proof fn lemma_failed_create_reported(err: StoreError, r: Response)
    requires
        answers_create(Err(err), r),
    ensures
        is_server_error(r.status),
        !is_success(r.status),
        r.payload == Payload::Entry(None),
{
}

/// A request that takes no route is answered with status 404 and exactly the
/// not-found envelope, also after the cross-origin fairing has run (a
/// preflight request, which the fairing empties, aside). The fairing adds the
/// cross-origin headers to it as to every response.
pub proof fn lemma_unmatched_request(
    s: Service,
    method: Method,
    ct: Option<ContentType>,
    segs: Seq<Seq<char>>,
    answered: Response,
    sent: Response,
)
    requires
        is_journal_service(s),
        journal_route(method, ct, segs) == Route::NotFound,
        is_not_found_response(answered),
        fairing_ran(method, answered, sent),
        method != Method::Options,
    ensures
        route_in(s.mounts@, method, ct, segs) == Route::NotFound,
        is_client_error(sent.status),
        sent.status == STATUS_NOT_FOUND,
        sent.content_type == Some(ContentType::Json),
        sent.payload matches Payload::Text(t) && t@ == not_found_text(),
        headers_view(sent.headers@) == with_cors_headers(Seq::empty()),
{
    lemma_journal_routes(s, method, ct, segs);
    assert(headers_view(answered.headers@) =~= Seq::empty());
}

} // verus!
