//! Construction of the upstream request for a resolved service.

use vstd::prelude::*;
use vstd::string::*;
use crate::model::SysServices;
use crate::text::{decimal, decimal_string};

verus! {

/// The upstream URL for `path` on a service reached with `protocol` at
/// `domain`, with the port when the service names one.
pub open spec fn target_url(protocol: Seq<char>, domain: Seq<char>, port: Option<u16>, path: Seq<char>) -> Seq<char> {
    match port {
        None => protocol + "://"@ + domain + "/"@ + path,
        Some(p) => protocol + "://"@ + domain + ":"@ + decimal(p as nat) + "/"@ + path,
    }
}

/// The URL with the request's query string appended after `?`, whenever the
/// request has a query.
pub open spec fn with_query(url: Seq<char>, query: Seq<char>) -> Seq<char> {
    if query.len() > 0 {
        url + "?"@ + query
    } else {
        url
    }
}

/// Builds the URL that a request for `path` with query string `query` is
/// forwarded to, from the stored description of the service.
pub fn build_target_url(service: &SysServices, path: &str, query: &str) -> (r: String)
    requires
        service.url is Some,
        service.protocol is Some,
    ensures
        r@ == with_query(
            target_url(service@.protocol->0, service@.url->0, service@.port, path@),
            query@,
        ),
        query@.len() > 0 ==> r@ == target_url(service@.protocol->0, service@.url->0, service@.port, path@)
            + seq!['?'] + query@,
        query@.len() == 0 ==> r@ == target_url(service@.protocol->0, service@.url->0, service@.port, path@),
{
    let domain = service.url.as_ref().unwrap();
    let protocol = service.protocol.as_ref().unwrap();
    let mut target = protocol.clone();
    target.append("://");
    target.append(domain.as_str());
    match service.port {
        Some(p) => {
            target.append(":");
            let digits = decimal_string(p as u64);
            target.append(digits.as_str());
        },
        None => {},
    }
    target.append("/");
    target.append(path);
    let ghost base = target@;
    assert(base =~= target_url(service@.protocol->0, service@.url->0, service@.port, path@));
    if !query.is_empty() {
        proof {
            reveal_strlit("?");
        }
        target.append("?");
        target.append(query);
        assert(target@ =~= base + seq!['?'] + query@);
    }
    target
}

/// The forwarded URL keeps the whole query string: for every non-empty query
/// `q` (one parameter or several), the URL is the base followed by `?` and
/// `q` unchanged; without a query it is the base alone. The base is the
/// protocol, `://`, the host, `:` and the port's decimal digits when a port is
/// given, `/` and the request path.
pub proof fn law_forwarded_url_shape(
    protocol: Seq<char>,
    domain: Seq<char>,
    port: Option<u16>,
    path: Seq<char>,
    url: Seq<char>,
    q: Seq<char>,
)
    ensures
        q.len() > 0 ==> with_query(url, q) == url + seq!['?'] + q,
        q.len() == 0 ==> with_query(url, q) == url,
        port is None ==> target_url(protocol, domain, port, path)
            == protocol + seq![':', '/', '/'] + domain + seq!['/'] + path,
        port is Some ==> target_url(protocol, domain, port, path)
            == protocol + seq![':', '/', '/'] + domain + seq![':'] + decimal(port->0 as nat) + seq!['/'] + path,
{
    reveal_strlit("?");
    reveal_strlit("://");
    reveal_strlit(":");
    reveal_strlit("/");
    assert("?"@ =~= seq!['?']);
    assert("://"@ =~= seq![':', '/', '/']);
    assert(":"@ =~= seq![':']);
    assert("/"@ =~= seq!['/']);
}

/// Whether the request is a CORS preflight request, answered by the gateway
/// itself with [`preflight_headers`].
pub fn is_preflight(method: &str) -> (b: bool)
    ensures
        b == (method@ == "OPTIONS"@),
{
    String::from_str(method) == String::from_str("OPTIONS")
}

/// The headers of the answer to a preflight request (its body is `OK`).
pub fn preflight_headers() -> (h: Vec<(String, String)>)
    ensures
        h@.len() == 4,
        h@[0].0@ == "Access-Control-Allow-Origin"@ && h@[0].1@ == "*"@,
        h@[1].0@ == "Access-Control-Allow-Methods"@ && h@[1].1@ == "GET, POST, OPTIONS"@,
        h@[2].0@ == "Access-Control-Allow-Headers"@ && h@[2].1@ == "Content-Type"@,
        h@[3].0@ == "Access-Control-Max-Age"@ && h@[3].1@ == "3600"@,
{
    let mut h = Vec::new();
    h.push((String::from_str("Access-Control-Allow-Origin"), String::from_str("*")));
    h.push((String::from_str("Access-Control-Allow-Methods"), String::from_str("GET, POST, OPTIONS")));
    h.push((String::from_str("Access-Control-Allow-Headers"), String::from_str("Content-Type")));
    h.push((String::from_str("Access-Control-Max-Age"), String::from_str("3600")));
    h
}

} // verus!
