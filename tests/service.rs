use journal::{
    create, create_entry, find_all, find_all_entries, find_by_id, find_entry_by_id, not_found,
    parse_entry_id, rejected_body, rocket, same_name_exec, set_header, unavailable, BodyError,
    ContentType, EntryId, Header, JournalEntry, Kind, Method, Payload, Response, Route, StoreError,
    Timestamp, CORS, NOT_FOUND_BODY,
};

const ID_TEXT: &str = "67e55044-10b1-426f-9247-bb680e5fe0c8";
const ID_VALUE: u128 = 0x67e5504410b1426f9247bb680e5fe0c8;

fn segs(parts: &[&str]) -> Vec<String> {
    parts.iter().map(|p| p.to_string()).collect()
}

fn stored(content: &str) -> JournalEntry {
    JournalEntry {
        id: Some(EntryId { value: ID_VALUE }),
        content: content.to_string(),
        created: Some(Timestamp { secs: 1_600_000_000, nanos: 250 }),
    }
}

fn header(name: &str, value: &str) -> Header {
    Header { name: name.to_string(), value: value.to_string() }
}

fn header_pairs(r: &Response) -> Vec<(String, String)> {
    r.headers.iter().map(|h| (h.name.clone(), h.value.clone())).collect()
}

#[test]
fn parses_hyphenated_id() {
    assert_eq!(parse_entry_id(ID_TEXT), Some(EntryId { value: ID_VALUE }));
}

#[test]
fn parses_simple_and_urn_ids() {
    assert_eq!(
        parse_entry_id("67e5504410b1426f9247bb680e5fe0c8"),
        Some(EntryId { value: ID_VALUE })
    );
    assert_eq!(
        parse_entry_id("urn:uuid:67e55044-10b1-426f-9247-bb680e5fe0c8"),
        Some(EntryId { value: ID_VALUE })
    );
}

#[test]
fn refuses_malformed_ids() {
    assert_eq!(parse_entry_id("not-a-uuid"), None);
    assert_eq!(parse_entry_id(""), None);
    assert_eq!(parse_entry_id("67e55044-10b1-426f-9247-bb680e5fe0cz"), None);
}

#[test]
fn routes_list() {
    let s = rocket();
    assert_eq!(s.route(Method::Get, None, &segs(&["api", "entry"])), Route::List);
}

#[test]
fn routes_lookup() {
    let s = rocket();
    assert_eq!(
        s.route(Method::Get, None, &segs(&["api", "entry", ID_TEXT])),
        Route::Lookup(EntryId { value: ID_VALUE })
    );
}

#[test]
fn malformed_id_takes_no_route() {
    let s = rocket();
    assert_eq!(s.route(Method::Get, None, &segs(&["api", "entry", "abc"])), Route::NotFound);
    assert_eq!(not_found().status, 404);
}

#[test]
fn routes_create_only_for_json() {
    let s = rocket();
    let p = segs(&["api", "entry"]);
    assert_eq!(s.route(Method::Post, Some(ContentType::Json), &p), Route::Create);
    assert_eq!(s.route(Method::Post, Some(ContentType::Plain), &p), Route::NotFound);
    assert_eq!(s.route(Method::Post, None, &p), Route::NotFound);
}

#[test]
fn other_requests_take_no_route() {
    let s = rocket();
    assert_eq!(s.route(Method::Get, None, &segs(&[])), Route::NotFound);
    assert_eq!(s.route(Method::Get, None, &segs(&["api"])), Route::NotFound);
    assert_eq!(s.route(Method::Get, None, &segs(&["api", "entries"])), Route::NotFound);
    assert_eq!(s.route(Method::Delete, None, &segs(&["api", "entry"])), Route::NotFound);
    assert_eq!(s.route(Method::Options, None, &segs(&["api", "entry"])), Route::NotFound);
    assert_eq!(
        s.route(Method::Get, None, &segs(&["api", "entry", ID_TEXT, "x"])),
        Route::NotFound
    );
}

#[test]
fn lookup_of_unknown_id_is_null() {
    let r = find_entry_by_id(find_by_id(Ok(None)));
    assert_eq!(r.status, 200);
    assert_eq!(r.content_type, Some(ContentType::Json));
    assert_eq!(r.payload, Payload::Entry(None));
}

#[test]
fn lookup_failure_is_swallowed() {
    assert_eq!(find_by_id(Err(StoreError::Failed)), None);
    let r = find_entry_by_id(find_by_id(Err(StoreError::Failed)));
    assert_eq!(r.status, 200);
    assert_eq!(r.payload, Payload::Entry(None));
}

#[test]
fn list_of_empty_table_is_empty() {
    let r = find_all_entries(find_all(Ok(Vec::new())));
    assert_eq!(r.status, 200);
    assert_eq!(r.payload, Payload::Entries(Some(Vec::new())));
}

#[test]
fn list_failure_is_null() {
    assert_eq!(find_all(Err(StoreError::Unavailable)), None);
    let r = find_all_entries(find_all(Err(StoreError::Failed)));
    assert_eq!(r.status, 200);
    assert_eq!(r.payload, Payload::Entries(None));
}

#[test]
fn list_keeps_rows_in_order() {
    let r = find_all_entries(find_all(Ok(vec![stored("a"), stored("b")])));
    assert_eq!(r.payload, Payload::Entries(Some(vec![stored("a"), stored("b")])));
}

#[test]
fn failed_create_is_reported() {
    let r = create_entry(create(Err(StoreError::Failed)));
    assert_eq!(r.status, 500);
    assert_eq!(r.payload, Payload::Entry(None));
    let r = create_entry(create(Err(StoreError::Unavailable)));
    assert_eq!(r.status, 503);
}

#[test]
fn create_then_lookup_answers_alike() {
    let submitted = JournalEntry::new("hello".to_string());
    assert_eq!(submitted.id, None);
    assert_eq!(submitted.created, None);
    let created = create_entry(create(Ok(stored("hello"))));
    assert_eq!(created.status, 200);
    assert_eq!(created.payload, Payload::Entry(Some(stored("hello"))));
    let s = rocket();
    let id = match s.route(Method::Get, None, &segs(&["api", "entry", ID_TEXT])) {
        Route::Lookup(id) => id,
        other => panic!("no lookup: {:?}", other),
    };
    assert_eq!(Some(id), stored("hello").id);
    let looked_up = find_entry_by_id(find_by_id(Ok(Some(stored("hello")))));
    assert_eq!(looked_up, created);
}

#[test]
fn not_found_envelope_is_exact() {
    let r = not_found();
    assert_eq!(r.status, 404);
    assert_eq!(r.content_type, Some(ContentType::Json));
    assert_eq!(
        r.payload,
        Payload::Text("{\"status\":\"error\",\"reason\":\"Resource was not found.\"}".to_string())
    );
    assert_eq!(NOT_FOUND_BODY, "{\"status\":\"error\",\"reason\":\"Resource was not found.\"}");
}

#[test]
fn unavailable_and_rejected_bodies() {
    assert_eq!(unavailable().status, 503);
    assert_eq!(rejected_body(BodyError::Syntax).status, 400);
    assert_eq!(rejected_body(BodyError::Data).status, 422);
}

#[test]
fn cors_info() {
    let i = CORS().info();
    assert_eq!(i.name, "Add CORS headers to requests");
    assert_eq!(i.kind, Kind::Response);
}

#[test]
fn cors_on_json_response() {
    let mut r = find_entry_by_id(None);
    CORS().on_response(Method::Get, &mut r);
    assert_eq!(r.status, 200);
    assert_eq!(r.payload, Payload::Entry(None));
    assert_eq!(r.content_type, Some(ContentType::Json));
    assert_eq!(
        header_pairs(&r),
        vec![
            ("Access-Control-Allow-Origin".to_string(), "*".to_string()),
            ("Access-Control-Allow-Methods".to_string(), "POST, GET, OPTIONS".to_string()),
            ("Access-Control-Allow-Headers".to_string(), "Content-Type".to_string()),
            ("Access-Control-Allow-Credentials".to_string(), "true".to_string()),
        ]
    );
}

#[test]
fn cors_on_preflight() {
    let mut r = not_found();
    CORS().on_response(Method::Options, &mut r);
    assert_eq!(r.status, 404);
    assert_eq!(r.content_type, Some(ContentType::Plain));
    assert_eq!(r.payload, Payload::Text(String::new()));
    assert_eq!(r.headers.len(), 4);
}

#[test]
fn cors_on_every_response() {
    let mut r = unavailable();
    CORS().on_response(Method::Get, &mut r);
    assert_eq!(r.status, 503);
    assert_eq!(r.content_type, None);
    assert_eq!(r.payload, unavailable().payload);
    assert_eq!(header_pairs(&r).len(), 4);
    assert_eq!(header_pairs(&r)[0], ("Access-Control-Allow-Origin".to_string(), "*".to_string()));
    let mut r = rejected_body(BodyError::Data);
    CORS().on_response(Method::Post, &mut r);
    assert_eq!(r.status, 422);
    assert_eq!(r.headers.len(), 4);
}

#[test]
fn service_runs_its_fairing() {
    let mut r = not_found();
    rocket().on_response(Method::Get, &mut r);
    assert_eq!(r.headers.len(), 4);
    assert_eq!(r.payload, not_found().payload);
}

#[test]
fn set_header_replaces_any_case() {
    let mut hs = vec![header("x-a", "1"), header("ACCESS-CONTROL-ALLOW-ORIGIN", "a.b"), header("x-b", "2")];
    set_header(&mut hs, header("Access-Control-Allow-Origin", "*"));
    assert_eq!(
        hs,
        vec![header("x-a", "1"), header("x-b", "2"), header("Access-Control-Allow-Origin", "*")]
    );
}

#[test]
fn header_names_compare_without_case() {
    assert!(same_name_exec("Content-Type", "content-type"));
    assert!(!same_name_exec("Content-Type", "Content-Typo"));
    assert!(!same_name_exec("a", "ab"));
    assert!(!same_name_exec("[", "{"));
}
