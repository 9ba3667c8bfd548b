use moyu_gateway::model::SysServices;
use moyu_gateway::proxy::{build_target_url, is_preflight, preflight_headers};
use moyu_gateway::routing::{handle_request, start_route, RouteStep};
use moyu_gateway::urls::UrlError;

fn lookup_key(step: &RouteStep) -> String {
    match step {
        RouteStep::Lookup(k) => k.clone(),
        other => panic!("expected a lookup, got {:?}", other),
    }
}

#[test]
fn probes_go_from_general_to_exact() {
    let (search, step) = handle_request("svc", "a/b");
    assert_eq!(lookup_key(&step), "svc/*");
    let (search, step) = search.advance(Ok(String::new()));
    assert_eq!(lookup_key(&step), "svc/*");
    let (search, step) = search.advance(Ok(String::new()));
    assert_eq!(lookup_key(&step), "svc/a/*");
    let (search, step) = search.advance(Ok(String::new()));
    assert_eq!(lookup_key(&step), "svc/a/b");
    let (_, step) = search.advance(Ok(String::new()));
    assert_eq!(step, RouteStep::NotFound);
}

#[test]
fn first_hit_is_forwarded() {
    let (search, _) = handle_request("svc", "a/b");
    let (search, _) = search.advance(Ok(String::new()));
    let (search, step) = search.advance(Err("timeout".to_string()));
    assert_eq!(lookup_key(&step), "svc/a/*");
    let (_, step) = search.advance(Ok("{\"url\":\"x\"}".to_string()));
    assert_eq!(step, RouteStep::Forward("{\"url\":\"x\"}".to_string()));
}

#[test]
fn wildcard_hit_is_forwarded_at_once() {
    let (search, _) = handle_request("svc", "a");
    let (_, step) = search.advance(Ok("desc".to_string()));
    assert_eq!(step, RouteStep::Forward("desc".to_string()));
}

#[test]
fn failed_first_lookup_is_not_found() {
    let (search, _) = handle_request("svc", "a");
    let (_, step) = search.advance(Err("down".to_string()));
    assert_eq!(step, RouteStep::NotFound);
}

#[test]
fn url_segments_come_from_the_parser() {
    // The parser resolves dot segments, so the probes follow the resolved path.
    let (search, step) = handle_request("svc", "a/../b");
    assert_eq!(lookup_key(&step), "svc/*");
    let (search, _) = search.advance(Ok(String::new()));
    let (_, step) = search.advance(Ok(String::new()));
    assert_eq!(lookup_key(&step), "svc/b");
}

#[test]
fn parse_errors_are_answered() {
    let (_, step) = start_route("svc", Err(UrlError::RelativeUrlWithoutBase));
    assert_eq!(step, RouteStep::NotFound);
    let (_, step) = start_route("svc", Err(UrlError::Other("bad".to_string())));
    assert_eq!(step, RouteStep::BadRequest("bad".to_string()));
    let (_, step) = start_route("svc", Ok(None));
    assert_eq!(step, RouteStep::NotFound);
}

#[test]
fn empty_segment_list_ends_after_wildcard() {
    let (search, step) = start_route("svc", Ok(Some(vec![])));
    assert_eq!(lookup_key(&step), "svc/*");
    let (_, step) = search.advance(Ok(String::new()));
    assert_eq!(step, RouteStep::NotFound);
}

fn described(protocol: &str, domain: &str, port: Option<u16>) -> SysServices {
    SysServices {
        id: Some("1".to_string()),
        server_name: Some("svc".to_string()),
        url: Some(domain.to_string()),
        description: None,
        protocol: Some(protocol.to_string()),
        port,
        path: None,
        is_active: Some(1),
        created_at: None,
        updated_at: None,
    }
}

#[test]
fn target_url_with_and_without_port() {
    let s = described("http", "a.com", None);
    assert_eq!(build_target_url(&s, "x/y", ""), "http://a.com/x/y");
    let s = described("https", "a.com", Some(8443));
    assert_eq!(build_target_url(&s, "x", ""), "https://a.com:8443/x");
}

#[test]
fn target_url_query_handling() {
    let s = described("http", "a.com", Some(80));
    assert_eq!(build_target_url(&s, "p", "a=1&b=2"), "http://a.com:80/p?a=1&b=2");
    assert_eq!(build_target_url(&s, "p", "&a=1"), "http://a.com:80/p?&a=1");
    assert_eq!(build_target_url(&s, "p", ""), "http://a.com:80/p");
}

#[test]
fn preflight_detection() {
    assert!(is_preflight("OPTIONS"));
    assert!(!is_preflight("GET"));
    assert!(!is_preflight("options"));
    let h = preflight_headers();
    assert_eq!(h.len(), 4);
    assert_eq!(h[0], ("Access-Control-Allow-Origin".to_string(), "*".to_string()));
    assert_eq!(h[3], ("Access-Control-Max-Age".to_string(), "3600".to_string()));
}

#[test]
fn wildcard_service_key_is_first_probe() {
    let mut s = described("http", "up.local", None);
    s.path = Some("/*".to_string());
    let key = moyu_gateway::keys::get_redis_key(s.clone()).unwrap();
    let (search, step) = handle_request("svc", "deep/inside/path");
    assert_eq!(lookup_key(&step), key);
    let (_, step) = search.advance(Ok("{\"server_name\":\"svc\"}".to_string()));
    assert!(matches!(step, RouteStep::Forward(_)));
    assert_eq!(build_target_url(&s, "deep/inside/path", ""), "http://up.local/deep/inside/path");
}
