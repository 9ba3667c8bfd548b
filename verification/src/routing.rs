//! Resolution of an incoming `/{service}/{path}` request to a registered
//! service: a fixed sequence of cache keys is probed, most general first, and
//! the first one that holds a service description wins.

use vstd::prelude::*;
use vstd::string::*;
use crate::urls::{parse_path_segments, segments_view, url_path_segments_of, UrlError, UrlErrorView};

verus! {

/// What the gateway does next with a request.
#[derive(Debug, PartialEq, Eq)]
pub enum RouteStep {
    /// Look the key up in the cache and report the answer to [`RouteSearch::advance`].
    Lookup(String),
    /// Forward the request to the service described by this JSON text.
    Forward(String),
    /// Answer 404 "Service not found".
    NotFound,
    /// Answer 400 with this message.
    BadRequest(String),
}

/// Model of a [`RouteStep`].
pub enum RouteStepView {
    Lookup(Seq<char>),
    Forward(Seq<char>),
    NotFound,
    BadRequest(Seq<char>),
}

impl View for RouteStep {
    type V = RouteStepView;

    open spec fn view(&self) -> RouteStepView {
        match self {
            RouteStep::Lookup(k) => RouteStepView::Lookup(k@),
            RouteStep::Forward(s) => RouteStepView::Forward(s@),
            RouteStep::NotFound => RouteStepView::NotFound,
            RouteStep::BadRequest(m) => RouteStepView::BadRequest(m@),
        }
    }
}

/// Model of a [`RouteSearch`]: the requested service name, the segments of
/// the request path and the index of the probe whose answer is awaited.
pub struct RouteSearchView {
    pub service: Seq<char>,
    pub segments: Seq<Seq<char>>,
    pub probe: nat,
}

/// The state of a search for the service that serves a request.
pub struct RouteSearch {
    service: String,
    segments: Vec<String>,
    probe: usize,
    prefix: String,
}

/// The first `i + 1` path segments joined by `/`.
pub open spec fn segment_path(segs: Seq<Seq<char>>, i: int) -> Seq<char>
    decreases i,
{
    if i <= 0 {
        segs[0]
    } else {
        segment_path(segs, i - 1) + seq!['/'] + segs[i]
    }
}

/// `key/*`: the wildcard entry below `key`.
pub open spec fn wildcard(key: Seq<char>) -> Seq<char> {
    key + seq!['/', '*']
}

/// The key of probe `k`: first `service/*`; then, for each prefix of the path
/// segments, the wildcard entry below it, except for the whole path, which is
/// probed as an exact key.
pub open spec fn probe_key(service: Seq<char>, segs: Seq<Seq<char>>, k: nat) -> Seq<char> {
    if k == 0 {
        wildcard(service)
    } else if k == segs.len() {
        segment_path(segs, k - 1)
    } else {
        wildcard(segment_path(segs, k - 1))
    }
}

/// Model of a cache answer: the stored text, or the lookup's error message.
pub open spec fn lookup_view(r: Result<String, String>) -> Result<Seq<char>, Seq<char>> {
    match r {
        Ok(v) => Ok(v@),
        Err(e) => Err(e@),
    }
}

/// A cache answer that names a service: a non-empty stored text.
pub open spec fn is_hit(r: Result<Seq<char>, Seq<char>>) -> bool {
    r is Ok && r->Ok_0.len() > 0
}

/// The URL that the request path is read from.
pub open spec fn gateway_url(service: Seq<char>, path: Seq<char>) -> Seq<char> {
    "https://www.test.com/"@ + service + "/"@ + path
}

/// The search state and the first step for a request to `service`, given the
/// parsed path segments of its URL.
pub open spec fn route_begin(
    service: Seq<char>,
    parsed: Result<Option<Seq<Seq<char>>>, UrlErrorView>,
) -> (RouteSearchView, RouteStepView) {
    let idle = RouteSearchView { service, segments: Seq::empty(), probe: 0 };
    match parsed {
        Err(UrlErrorView::RelativeUrlWithoutBase) => (idle, RouteStepView::NotFound),
        Err(UrlErrorView::Other(m)) => (idle, RouteStepView::BadRequest(m)),
        Ok(None) => (idle, RouteStepView::NotFound),
        Ok(Some(segs)) => (
            RouteSearchView { service, segments: segs, probe: 0 },
            RouteStepView::Lookup(probe_key(service, segs, 0)),
        ),
    }
}

/// The next state and step once the awaited probe has been answered with `r`.
/// A hit forwards the request; a failed first lookup ends the search; any
/// other answer moves on to the next probe, or ends the search after the last.
pub open spec fn route_advance(
    s: RouteSearchView,
    r: Result<Seq<char>, Seq<char>>,
) -> (RouteSearchView, RouteStepView) {
    if is_hit(r) {
        (s, RouteStepView::Forward(r->Ok_0))
    } else if s.probe == 0 && r is Err {
        (s, RouteStepView::NotFound)
    } else if s.probe < s.segments.len() {
        let t = RouteSearchView { probe: s.probe + 1, ..s };
        (t, RouteStepView::Lookup(probe_key(s.service, s.segments, t.probe)))
    } else {
        (s, RouteStepView::NotFound)
    }
}

/// The step reached from state `s` when the probes are answered by `rs` in
/// order (a `Lookup` when the answers run out first).
pub open spec fn route_drive(s: RouteSearchView, rs: Seq<Result<Seq<char>, Seq<char>>>) -> RouteStepView
    decreases rs.len(),
{
    if rs.len() == 0 {
        RouteStepView::Lookup(probe_key(s.service, s.segments, s.probe))
    } else {
        let (t, step) = route_advance(s, rs[0]);
        match step {
            RouteStepView::Lookup(_) => route_drive(t, rs.drop_first()),
            _ => step,
        }
    }
}

impl View for RouteSearch {
    type V = RouteSearchView;

    closed spec fn view(&self) -> RouteSearchView {
        RouteSearchView {
            service: self.service@,
            segments: self.segments@.map_values(|s: String| s@),
            probe: self.probe as nat,
        }
    }
}

impl RouteSearch {
    #[verifier::type_invariant]
    spec fn inv(self) -> bool {
        &&& self.probe <= self.segments@.len()
        &&& self.probe >= 1 ==> self.prefix@ == segment_path(
            self.segments@.map_values(|s: String| s@),
            self.probe - 1,
        )
    }

    /// Moves the search on with the cache's answer `looked_up` to the awaited probe.
    pub fn advance(self, looked_up: Result<String, String>) -> (r: (RouteSearch, RouteStep))
        ensures
            (r.0@, r.1@) == route_advance(self@, lookup_view(looked_up)),
    {
        proof {
            use_type_invariant(&self);
        }
        let ghost segs = self@.segments;
        let failed = looked_up.is_err();
        match looked_up {
            Ok(v) => {
                if !v.as_str().is_empty() {
                    return (self, RouteStep::Forward(v));
                }
            },
            Err(_) => {},
        }
        if self.probe == 0 && failed {
            return (self, RouteStep::NotFound);
        }
        let n = self.segments.len();
        if self.probe < n {
            let i = self.probe;
            let mut prefix;
            if i == 0 {
                prefix = self.segments[0].clone();
            } else {
                prefix = self.prefix;
                prefix.append("/");
                proof {
                    reveal_strlit("/");
                }
                prefix.append(self.segments[i].as_str());
                proof {
                    assert(self.segments@[i as int]@ == segs[i as int]);
                    assert(prefix@ =~= segment_path(segs, i as int));
                }
            }
            proof {
                assert(self.segments@[0]@ == segs[0]);
                assert(prefix@ =~= segment_path(segs, i as int));
            }
            let mut key = prefix.clone();
            if i + 1 < n {
                proof {
                    reveal_strlit("/*");
                }
                key.append("/*");
            }
            proof {
                if i + 1 < n {
                    assert(key@ =~= wildcard(segment_path(segs, i as int)));
                }
            }
            let next = RouteSearch {
                service: self.service,
                segments: self.segments,
                probe: i + 1,
                prefix,
            };
            (next, RouteStep::Lookup(key))
        } else {
            (self, RouteStep::NotFound)
        }
    }
}

/// Starts the search for `service` from the parsed path segments of the
/// request URL (or the parser's refusal).
pub fn start_route(service: &str, parsed: Result<Option<Vec<String>>, UrlError>) -> (r: (RouteSearch, RouteStep))
    ensures
        r.1@ == route_begin(service@, segments_view(parsed)).1,
        r.1 is Lookup ==> r.0@ == route_begin(service@, segments_view(parsed)).0,
{
    let idle = RouteSearch {
        service: String::from_str(service),
        segments: Vec::new(),
        probe: 0,
        prefix: String::new(),
    };
    match parsed {
        Err(UrlError::RelativeUrlWithoutBase) => (idle, RouteStep::NotFound),
        Err(UrlError::Other(m)) => (idle, RouteStep::BadRequest(m)),
        Ok(None) => (idle, RouteStep::NotFound),
        Ok(Some(segments)) => {
            let mut key = String::from_str(service);
            proof {
                reveal_strlit("/*");
            }
            key.append("/*");
            assert(key@ =~= wildcard(service@));
            let s = RouteSearch { service: String::from_str(service), segments, probe: 0, prefix: String::new() };
            (s, RouteStep::Lookup(key))
        },
    }
}

/// Reads the path segments of the request for `service` and `path` (through
/// the `url` crate) and starts the search for the service that serves it.
pub fn handle_request(service: &str, path: &str) -> (r: (RouteSearch, RouteStep))
    ensures
        r.1@ == route_begin(service@, url_path_segments_of(gateway_url(service@, path@))).1,
        r.1 is Lookup ==> r.0@ == route_begin(service@, url_path_segments_of(gateway_url(service@, path@))).0,
{
    let mut url = String::from_str("https://www.test.com/");
    url.append(service);
    url.append("/");
    url.append(path);
    let parsed = parse_path_segments(url.as_str());
    start_route(service, parsed)
}

/// The path keys are built by accumulation: the key of the first segment is
/// that segment, and each further key is the previous one, `/` and the next
/// segment.
pub proof fn law_segment_path_accumulates(segs: Seq<Seq<char>>, i: int)
    requires
        0 <= i,
    ensures
        segment_path(segs, 0) == segs[0],
        segment_path(segs, i + 1) == segment_path(segs, i) + seq!['/'] + segs[i + 1],
{
}

/// Every shorter path key, followed by `/`, begins the longer one: a probe
/// below the first `i + 1` segments covers each request whose path goes on
/// past them.
pub proof fn law_segment_path_prefix(segs: Seq<Seq<char>>, i: int, j: int)
    requires
        0 <= i < j,
    ensures
        (segment_path(segs, i) + seq!['/']).is_prefix_of(segment_path(segs, j)),
    decreases j - i,
{
    let p = segment_path(segs, i) + seq!['/'];
    if j == i + 1 {
        assert(segment_path(segs, j) =~= p + segs[j]);
        assert(segment_path(segs, j).subrange(0, p.len() as int) =~= p);
    } else {
        law_segment_path_prefix(segs, i, j - 1);
        let q = segment_path(segs, j - 1);
        assert(segment_path(segs, j) =~= q + seq!['/'] + segs[j]);
        assert(p =~= q.subrange(0, p.len() as int));
        assert(segment_path(segs, j).subrange(0, p.len() as int) =~= p);
    }
}

/// The probe keys, stated key by key: probe 0 is `service/*`; for every
/// `1 <= k <` the number of segments, probe `k` is the first `k` segments
/// joined by `/` (the whole accumulated prefix), followed by `/*`; the last
/// probe is the whole path, without `/*`.
pub proof fn law_probe_keys(service: Seq<char>, segs: Seq<Seq<char>>, k: nat)
    ensures
        k == 0 ==> probe_key(service, segs, k) == service + seq!['/', '*'],
        1 <= k < segs.len() ==> probe_key(service, segs, k) == segment_path(segs, k - 1) + seq!['/', '*'],
        1 <= k && k == segs.len() ==> probe_key(service, segs, k) == segment_path(segs, k - 1),
        1 <= k < segs.len() ==> (segment_path(segs, k - 1) + seq!['/']).is_prefix_of(
            segment_path(segs, segs.len() - 1),
        ),
{
    if 1 <= k < segs.len() {
        law_segment_path_prefix(segs, k - 1, segs.len() - 1);
    }
}

/// The search state right after the first lookup was asked for.
pub open spec fn route_started(service: Seq<char>, segs: Seq<Seq<char>>) -> RouteSearchView {
    RouteSearchView { service, segments: segs, probe: 0 }
}

proof fn lemma_drive_misses(s: RouteSearchView, rs: Seq<Result<Seq<char>, Seq<char>>>)
    requires
        s.probe + rs.len() <= s.segments.len(),
        s.probe == 0 && rs.len() > 0 ==> rs[0] is Ok,
        forall|j: int| 0 <= j < rs.len() ==> !is_hit(#[trigger] rs[j]),
    ensures
        route_drive(s, rs) == RouteStepView::Lookup(probe_key(s.service, s.segments, s.probe + rs.len())),
    decreases rs.len(),
{
    if rs.len() > 0 {
        assert(!is_hit(rs[0]));
        let t = RouteSearchView { probe: s.probe + 1, ..s };
        let rest = rs.drop_first();
        assert forall|j: int| 0 <= j < rest.len() implies !is_hit(#[trigger] rest[j]) by {
            assert(rest[j] == rs[j + 1]);
        }
        lemma_drive_misses(t, rest);
    }
}

proof fn lemma_drive_hit(s: RouteSearchView, rs: Seq<Result<Seq<char>, Seq<char>>>, k: int)
    requires
        0 <= k < rs.len(),
        s.probe + k <= s.segments.len(),
        is_hit(rs[k]),
        forall|j: int| 0 <= j < k ==> !is_hit(#[trigger] rs[j]),
        s.probe == 0 && k > 0 ==> rs[0] is Ok,
    ensures
        route_drive(s, rs) == RouteStepView::Forward(rs[k]->Ok_0),
    decreases k,
{
    if k > 0 {
        assert(!is_hit(rs[0]));
        let t = RouteSearchView { probe: s.probe + 1, ..s };
        let rest = rs.drop_first();
        assert forall|j: int| 0 <= j < k - 1 implies !is_hit(#[trigger] rest[j]) by {
            assert(rest[j] == rs[j + 1]);
        }
        assert(rest[k - 1] == rs[k]);
        lemma_drive_hit(t, rest, k - 1);
    }
}

proof fn lemma_drive_exhausted(s: RouteSearchView, rs: Seq<Result<Seq<char>, Seq<char>>>)
    requires
        s.probe <= s.segments.len(),
        s.probe + rs.len() == s.segments.len() + 1,
        s.probe == 0 && rs.len() > 1 ==> rs[0] is Ok,
        forall|j: int| 0 <= j < rs.len() ==> !is_hit(#[trigger] rs[j]),
    ensures
        route_drive(s, rs) == RouteStepView::NotFound,
    decreases rs.len(),
{
    assert(!is_hit(rs[0]));
    if s.probe < s.segments.len() {
        let t = RouteSearchView { probe: s.probe + 1, ..s };
        let rest = rs.drop_first();
        assert forall|j: int| 0 <= j < rest.len() implies !is_hit(#[trigger] rest[j]) by {
            assert(rest[j] == rs[j + 1]);
        }
        lemma_drive_exhausted(t, rest);
    }
}

/// Probes are asked for in order: as long as the first lookup succeeded and
/// no answer named a service, the `k`-th lookup asked for is `probe_key(k)`.
pub proof fn law_route_probe_order(
    service: Seq<char>,
    segs: Seq<Seq<char>>,
    rs: Seq<Result<Seq<char>, Seq<char>>>,
)
    requires
        rs.len() <= segs.len(),
        rs.len() > 0 ==> rs[0] is Ok,
        forall|j: int| 0 <= j < rs.len() ==> !is_hit(#[trigger] rs[j]),
    ensures
        route_drive(route_started(service, segs), rs)
            == RouteStepView::Lookup(probe_key(service, segs, rs.len())),
{
    lemma_drive_misses(route_started(service, segs), rs);
}

/// The request is forwarded to the service found at the first probe whose
/// answer is a non-empty text, provided the first lookup did not fail.
pub proof fn law_route_first_hit_wins(
    service: Seq<char>,
    segs: Seq<Seq<char>>,
    rs: Seq<Result<Seq<char>, Seq<char>>>,
    k: int,
)
    requires
        rs.len() == segs.len() + 1,
        rs[0] is Ok,
        0 <= k < rs.len(),
        is_hit(rs[k]),
        forall|j: int| 0 <= j < k ==> !is_hit(#[trigger] rs[j]),
    ensures
        route_drive(route_started(service, segs), rs) == RouteStepView::Forward(rs[k]->Ok_0),
{
    lemma_drive_hit(route_started(service, segs), rs, k);
}

/// When no probe names a service, the request is answered "not found" after
/// the last probe, the exact key of the whole path.
pub proof fn law_route_all_misses_not_found(
    service: Seq<char>,
    segs: Seq<Seq<char>>,
    rs: Seq<Result<Seq<char>, Seq<char>>>,
)
    requires
        rs.len() == segs.len() + 1,
        rs[0] is Ok,
        forall|j: int| 0 <= j < rs.len() ==> !is_hit(#[trigger] rs[j]),
    ensures
        route_drive(route_started(service, segs), rs) == RouteStepView::NotFound,
{
    lemma_drive_exhausted(route_started(service, segs), rs);
}

/// A failed first lookup (of `service/*`) answers "not found" at once,
/// whatever the later probes would have given.
pub proof fn law_route_failed_first_lookup(
    service: Seq<char>,
    segs: Seq<Seq<char>>,
    rs: Seq<Result<Seq<char>, Seq<char>>>,
)
    requires
        rs.len() > 0,
        rs[0] is Err,
    ensures
        route_drive(route_started(service, segs), rs) == RouteStepView::NotFound,
{
}

} // verus!
