use vstd::prelude::*;

use crate::cors::{fairing_ran, CORS};
use crate::entry::EntryId;
use crate::http::{ContentType, Method, Response};
use crate::ident::{parse_entry_id, uuid_of, uuid_text_len};

verus! {

/// One segment of a route's path pattern.
pub enum Segment {
    /// A segment that must be this text.
    Static(String),
    /// A non-empty segment that the route reads as a parameter.
    Param,
}

/// What a route does once it has taken a request.
#[derive(Clone, Copy, Debug, PartialEq, Eq, Structural)]
pub enum Action {
    ListEntries,
    /// Looks up the entry whose identifier is the path's last segment.
    LookupEntry,
    CreateEntry,
}

/// A route: the method, the body format it asks of a request (if any), the
/// path pattern, and the action.
pub struct Mount {
    pub method: Method,
    pub format: Option<ContentType>,
    pub pattern: Vec<Segment>,
    pub action: Action,
}

/// Where a request goes: a storage operation, or nowhere.
#[derive(Clone, Copy, Debug, PartialEq, Eq, Structural)]
pub enum Route {
    List,
    Lookup(EntryId),
    Create,
    NotFound,
}

/// The service as assembled: its routes, tried in order, and the fairing
/// that runs on every response.
pub struct Service {
    pub mounts: Vec<Mount>,
    pub cors: Option<CORS>,
}

/// The path segments as texts.
pub open spec fn seg_views(segs: Seq<String>) -> Seq<Seq<char>> {
    segs.map_values(|s: String| s@)
}

/// A pattern as texts, `None` standing for a parameter.
pub open spec fn pattern_view(p: Seq<Segment>) -> Seq<Option<Seq<char>>> {
    p.map_values(
        |s: Segment|
            match s {
                Segment::Static(t) => Some(t@),
                Segment::Param => None,
            },
    )
}

pub open spec fn segment_matches(p: Option<Seq<char>>, s: Seq<char>) -> bool {
    match p {
        Some(t) => t == s,
        None => s.len() > 0,
    }
}

pub open spec fn pattern_matches(p: Seq<Option<Seq<char>>>, segs: Seq<Seq<char>>) -> bool {
    p.len() == segs.len() && forall|i: int| 0 <= i < p.len() ==> segment_matches(p[i], segs[i])
}

/// A route that names a format takes only requests whose body has it.
pub open spec fn format_matches(format: Option<ContentType>, ct: Option<ContentType>) -> bool {
    match format {
        Some(f) => ct == Some(f),
        None => true,
    }
}

/// What one route makes of a request: `None` where it does not take it,
/// and also where the identifier it reads does not parse (the request is
/// then handed on to the next route).
pub open spec fn mount_route(
    m: Mount,
    method: Method,
    ct: Option<ContentType>,
    segs: Seq<Seq<char>>,
) -> Option<Route> {
    if m.method == method && format_matches(m.format, ct) && pattern_matches(
        pattern_view(m.pattern@),
        segs,
    ) {
        match m.action {
            Action::ListEntries => Some(Route::List),
            Action::CreateEntry => Some(Route::Create),
            Action::LookupEntry => if segs.len() > 0 {
                match uuid_of(segs.last()) {
                    Some(v) => Some(Route::Lookup(EntryId { value: v })),
                    None => None,
                }
            } else {
                None
            },
        }
    } else {
        None
    }
}

/// The first route that takes the request, or `NotFound`.
pub open spec fn route_in(
    mounts: Seq<Mount>,
    method: Method,
    ct: Option<ContentType>,
    segs: Seq<Seq<char>>,
) -> Route
    decreases mounts.len(),
{
    if mounts.len() == 0 {
        Route::NotFound
    } else {
        match mount_route(mounts[0], method, ct, segs) {
            Some(r) => r,
            None => route_in(mounts.drop_first(), method, ct, segs),
        }
    }
}

fn pattern_matches_exec(pattern: &Vec<Segment>, segs: &Vec<String>) -> (r: bool)
    ensures
        r == pattern_matches(pattern_view(pattern@), seg_views(segs@)),
{
    if pattern.len() != segs.len() {
        return false;
    }
    let ghost pv = pattern_view(pattern@);
    let ghost sv = seg_views(segs@);
    let mut i: usize = 0;
    while i < pattern.len()
        invariant
            pattern@.len() == segs@.len(),
            pv == pattern_view(pattern@),
            sv == seg_views(segs@),
            i <= pattern@.len(),
            forall|j: int| 0 <= j < i ==> segment_matches(pv[j], sv[j]),
        decreases pattern@.len() - i,
    {
        let ok = match &pattern[i] {
            Segment::Static(t) => *t == segs[i],
            Segment::Param => segs[i].as_str().unicode_len() > 0,
        };
        assert(sv[i as int] == segs@[i as int]@);
        assert(pv[i as int] == match pattern@[i as int] {
            Segment::Static(t) => Some(t@),
            Segment::Param => None,
        });
        if !ok {
            return false;
        }
        i = i + 1;
    }
    true
}

impl Mount {
    /// What this route makes of a request.
    pub fn try_route(&self, method: Method, ct: Option<ContentType>, segs: &Vec<String>) -> (r:
        Option<Route>)
        ensures
            r == mount_route(*self, method, ct, seg_views(segs@)),
            r matches Some(Route::Lookup(_)) ==> segs@.len() > 0 && uuid_text_len(
                segs@.last()@.len(),
            ),
    {
        if self.method != method {
            return None;
        }
        let format_ok = match self.format {
            Some(f) => match ct {
                Some(c) => f == c,
                None => false,
            },
            None => true,
        };
        if !format_ok || !pattern_matches_exec(&self.pattern, segs) {
            return None;
        }
        match self.action {
            Action::ListEntries => Some(Route::List),
            Action::CreateEntry => Some(Route::Create),
            Action::LookupEntry => {
                let n = segs.len();
                if n == 0 {
                    None
                } else {
                    proof {
                        assert(seg_views(segs@).last() == segs@[n - 1]@);
                    }
                    match parse_entry_id(segs[n - 1].as_str()) {
                        Some(id) => Some(Route::Lookup(id)),
                        None => None,
                    }
                }
            },
        }
    }
}

impl Service {
    /// The route a request takes: the first that takes it, else `NotFound`.
    /// `segs` are the non-empty segments of the request path.
    pub fn route(&self, method: Method, ct: Option<ContentType>, segs: &Vec<String>) -> (r: Route)
        ensures
            r == route_in(self.mounts@, method, ct, seg_views(segs@)),
            r is Lookup ==> segs@.len() > 0 && uuid_text_len(segs@.last()@.len()),
    {
        let ghost sv = seg_views(segs@);
        let mut i: usize = 0;
        assert(self.mounts@.subrange(0, self.mounts@.len() as int) =~= self.mounts@);
        while i < self.mounts.len()
            invariant
                sv == seg_views(segs@),
                i <= self.mounts@.len(),
                route_in(self.mounts@, method, ct, sv) == route_in(
                    self.mounts@.subrange(i as int, self.mounts@.len() as int),
                    method,
                    ct,
                    sv,
                ),
            decreases self.mounts@.len() - i,
        {
            let ghost rest = self.mounts@.subrange(i as int, self.mounts@.len() as int);
            assert(rest.drop_first() =~= self.mounts@.subrange(i + 1, self.mounts@.len() as int));
            assert(rest[0] == self.mounts@[i as int]);
            match self.mounts[i].try_route(method, ct, segs) {
                Some(r) => {
                    return r;
                },
                None => {},
            }
            i = i + 1;
        }
        assert(self.mounts@.subrange(i as int, self.mounts@.len() as int).len() == 0);
        Route::NotFound
    }

    /// Runs the service's fairing, if it has one, on a finished response.
    pub fn on_response(&self, method: Method, response: &mut Response)
        ensures
            self.cors.is_some() ==> fairing_ran(method, *old(response), *final(response)),
            self.cors.is_none() ==> *final(response) == *old(response),
    {
        match &self.cors {
            Some(c) => c.on_response(method, response),
            None => {},
        }
    }
}

/// The path `/api/entry`.
pub open spec fn entries_path() -> Seq<Option<Seq<char>>> {
    seq![Some("api"@), Some("entry"@)]
}

/// The path `/api/entry/<id>`.
pub open spec fn entry_path() -> Seq<Option<Seq<char>>> {
    seq![Some("api"@), Some("entry"@), None]
}

pub open spec fn mount_is(
    m: Mount,
    method: Method,
    format: Option<ContentType>,
    pattern: Seq<Option<Seq<char>>>,
    action: Action,
) -> bool {
    m.method == method && m.format == format && pattern_view(m.pattern@) == pattern && m.action
        == action
}

/// The journal service: list, lookup and create under `/api`, with the
/// cross-origin fairing attached.
pub open spec fn is_journal_service(s: Service) -> bool {
    &&& s.mounts@.len() == 3
    &&& mount_is(s.mounts@[0], Method::Get, None, entries_path(), Action::ListEntries)
    &&& mount_is(s.mounts@[1], Method::Get, None, entry_path(), Action::LookupEntry)
    &&& mount_is(
        s.mounts@[2],
        Method::Post,
        Some(ContentType::Json),
        entries_path(),
        Action::CreateEntry,
    )
    &&& s.cors.is_some()
}

fn api_pattern(with_param: bool) -> (r: Vec<Segment>)
    ensures
        pattern_view(r@) == if with_param {
            entry_path()
        } else {
            entries_path()
        },
{
    let mut r: Vec<Segment> = Vec::new();
    r.push(Segment::Static(String::from_str("api")));
    r.push(Segment::Static(String::from_str("entry")));
    if with_param {
        r.push(Segment::Param);
    }
    assert(pattern_view(r@) =~= if with_param {
        entry_path()
    } else {
        entries_path()
    });
    r
}

/// Assembles the service: its route table and its fairing. The database
/// pool is made once by the program and handed to each request.
pub fn rocket() -> (r: Service)
    ensures
        is_journal_service(r),
{
    let mut mounts: Vec<Mount> = Vec::new();
    mounts.push(
        Mount {
            method: Method::Get,
            format: None,
            pattern: api_pattern(false),
            action: Action::ListEntries,
        },
    );
    mounts.push(
        Mount {
            method: Method::Get,
            format: None,
            pattern: api_pattern(true),
            action: Action::LookupEntry,
        },
    );
    mounts.push(
        Mount {
            method: Method::Post,
            format: Some(ContentType::Json),
            pattern: api_pattern(false),
            action: Action::CreateEntry,
        },
    );
    Service { mounts, cors: Some(CORS()) }
}

} // verus!
