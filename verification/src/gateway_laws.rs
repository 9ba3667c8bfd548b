//! Properties that join a registered service to the requests it serves.

use vstd::prelude::*;
use crate::keys::redis_key;
use crate::model::ServiceRecord;
use crate::proxy::{target_url, with_query};
use crate::routing::{is_hit, probe_key, route_drive, route_started, RouteStepView};

verus! {

/// A service registered under path `/*` catches every request to its name:
/// its cache key is the first key probed for any request to that name, so
/// when that probe finds its description the request is forwarded at once,
/// whatever the rest of the path; and a request for `path` without query goes
/// to `protocol://host/path` (when the service names no port).
pub proof fn law_wildcard_service_catches_all_paths(
    s: ServiceRecord,
    segs: Seq<Seq<char>>,
    rs: Seq<Result<Seq<char>, Seq<char>>>,
    path: Seq<char>,
)
    requires
        s.server_name is Some,
        s.path == Some(seq!['/', '*']),
        rs.len() > 0,
        is_hit(rs[0]),
    ensures
        redis_key(s) == probe_key(s.server_name->0, segs, 0),
        route_drive(route_started(s.server_name->0, segs), rs) == RouteStepView::Forward(rs[0]->Ok_0),
        s.url is Some && s.protocol is Some && s.port is None ==> with_query(
            target_url(s.protocol->0, s.url->0, s.port, path),
            Seq::empty(),
        ) == s.protocol->0 + "://"@ + s.url->0 + "/"@ + path,
{
}

} // verus!
