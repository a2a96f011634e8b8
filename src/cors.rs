use vstd::prelude::*;

use crate::http::{ContentType, Header, Method, Payload, Response};

verus! {

/// A header as the pair of its name and its value.
pub open spec fn header_view(h: Header) -> (Seq<char>, Seq<char>) {
    (h.name@, h.value@)
}

/// The headers of a response as name-value pairs, in order.
pub open spec fn headers_view(hs: Seq<Header>) -> Seq<(Seq<char>, Seq<char>)> {
    hs.map_values(|h: Header| header_view(h))
}

/// A character with ASCII upper case folded to lower case.
pub open spec fn fold_case(c: char) -> u32 {
    if 65 <= c as u32 <= 90 {
        (c as u32 + 32) as u32
    } else {
        c as u32
    }
}

/// Header names are compared without regard to ASCII case.
pub open spec fn same_name(a: Seq<char>, b: Seq<char>) -> bool {
    a.len() == b.len() && forall|i: int| 0 <= i < a.len() ==> fold_case(a[i]) == fold_case(b[i])
}

/// The headers without those named `name`, the others in order.
pub open spec fn without_name(hs: Seq<(Seq<char>, Seq<char>)>, name: Seq<char>) -> Seq<
    (Seq<char>, Seq<char>),
>
    decreases hs.len(),
{
    if hs.len() == 0 {
        hs
    } else {
        let rest = without_name(hs.drop_last(), name);
        if same_name(hs.last().0, name) {
            rest
        } else {
            rest.push(hs.last())
        }
    }
}

/// Setting a header replaces every header of that name.
pub open spec fn with_header(hs: Seq<(Seq<char>, Seq<char>)>, h: (Seq<char>, Seq<char>)) -> Seq<
    (Seq<char>, Seq<char>),
> {
    without_name(hs, h.0).push(h)
}

/// The four headers that allow any origin to call the service.
pub open spec fn with_cors_headers(hs: Seq<(Seq<char>, Seq<char>)>) -> Seq<(Seq<char>, Seq<char>)> {
    let hs1 = with_header(hs, ("Access-Control-Allow-Origin"@, "*"@));
    let hs2 = with_header(hs1, ("Access-Control-Allow-Methods"@, "POST, GET, OPTIONS"@));
    let hs3 = with_header(hs2, ("Access-Control-Allow-Headers"@, "Content-Type"@));
    with_header(hs3, ("Access-Control-Allow-Credentials"@, "true"@))
}

/// `after` is `before` once the cross-origin fairing has run on it.
pub open spec fn fairing_ran(method: Method, before: Response, after: Response) -> bool {
    &&& after.status == before.status
    &&& headers_view(after.headers@) == with_cors_headers(headers_view(before.headers@))
    &&& method == Method::Options ==> (after.content_type == Some(ContentType::Plain) && (
    after.payload matches Payload::Text(t) && t@.len() == 0))
    &&& method != Method::Options ==> (after.content_type == before.content_type && after.payload
        == before.payload)
}

fn fold_case_exec(c: char) -> (r: u32)
    ensures
        r == fold_case(c),
{
    let v = c as u32;
    if 65 <= v && v <= 90 {
        v + 32
    } else {
        v
    }
}

/// Whether two header names are equal but for ASCII case.
pub fn same_name_exec(a: &str, b: &str) -> (r: bool)
    ensures
        r == same_name(a@, b@),
{
    let n = a.unicode_len();
    if n != b.unicode_len() {
        return false;
    }
    let mut i: usize = 0;
    while i < n
        invariant
            n == a@.len(),
            n == b@.len(),
            i <= n,
            forall|j: int| 0 <= j < i ==> fold_case(a@[j]) == fold_case(b@[j]),
        decreases n - i,
    {
        if fold_case_exec(a.get_char(i)) != fold_case_exec(b.get_char(i)) {
            return false;
        }
        i = i + 1;
    }
    true
}

/// Sets a header, replacing any header of the same name.
pub fn set_header(headers: &mut Vec<Header>, h: Header)
    ensures
        headers_view(final(headers)@) == with_header(headers_view(old(headers)@), header_view(h)),
{
    let ghost before = headers_view(old(headers)@);
    let mut kept: Vec<Header> = Vec::new();
    let mut i: usize = 0;
    while i < headers.len()
        invariant
            before == headers_view(headers@),
            i <= headers@.len(),
            headers_view(kept@) == without_name(before.subrange(0, i as int), h.name@),
        decreases headers@.len() - i,
    {
        let same = same_name_exec(headers[i].name.as_str(), h.name.as_str());
        proof {
            assert(before.subrange(0, i + 1).drop_last() =~= before.subrange(0, i as int));
            assert(before.subrange(0, i + 1).last() == header_view(headers@[i as int]));
        }
        if !same {
            let ghost prev = kept@;
            kept.push(copy_header(&headers[i]));
            assert(headers_view(kept@) =~= headers_view(prev).push(header_view(headers@[i as int])));
        }
        i = i + 1;
    }
    assert(before.subrange(0, headers@.len() as int) =~= before);
    let ghost prev = kept@;
    kept.push(h);
    assert(headers_view(kept@) =~= headers_view(prev).push(header_view(h)));
    *headers = kept;
}

fn copy_header(h: &Header) -> (r: Header)
    ensures
        header_view(r) == header_view(*h),
{
    Header { name: h.name.clone(), value: h.value.clone() }
}

fn new_header(name: &str, value: &str) -> (r: Header)
    ensures
        header_view(r) == (name@, value@),
{
    Header { name: String::from_str(name), value: String::from_str(value) }
}

/// The fairing that lets browsers on other origins call the service.
pub struct CORS();

/// When a fairing runs.
#[derive(Clone, Copy, Debug, PartialEq, Eq, Structural)]
pub enum Kind {
    Attach,
    Launch,
    Request,
    Response,
}

/// What a fairing says of itself.
#[derive(Debug, PartialEq, Eq)]
pub struct Info {
    pub name: String,
    pub kind: Kind,
}

impl CORS {
    pub fn info(&self) -> (r: Info)
        ensures
            r.name@ == "Add CORS headers to requests"@,
            r.kind == Kind::Response,
    {
        Info { name: String::from_str("Add CORS headers to requests"), kind: Kind::Response }
    }

    /// Adds the cross-origin headers to every response; a preflight request's
    /// response then becomes an empty plain-text body. The status is kept.
    pub fn on_response(&self, method: Method, response: &mut Response)
        ensures
            fairing_ran(method, *old(response), *final(response)),
    {
        set_header(&mut response.headers, new_header("Access-Control-Allow-Origin", "*"));
        set_header(
            &mut response.headers,
            new_header("Access-Control-Allow-Methods", "POST, GET, OPTIONS"),
        );
        set_header(&mut response.headers, new_header("Access-Control-Allow-Headers", "Content-Type"));
        set_header(&mut response.headers, new_header("Access-Control-Allow-Credentials", "true"));
        if method == Method::Options {
            response.content_type = Some(ContentType::Plain);
            response.payload = Payload::Text(String::new());
        }
    }
}

} // verus!
