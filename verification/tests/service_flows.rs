use moyu_gateway::error::ServiceError;
use moyu_gateway::model::{SelectServiceByPageReqVO, SysServices, UpdateIsActive};
use moyu_gateway::service::{
    prepare_add_service, start_add_service, start_update_is_active, start_update_service, sync_tables_data,
    Effect, Outcome, ServiceFlow, SysServiceService,
};
use moyu_gateway::urls::UrlError;

fn svc(id: Option<&str>, name: &str, path: Option<&str>, active: Option<i32>) -> SysServices {
    SysServices {
        id: id.map(|s| s.to_string()),
        server_name: Some(name.to_string()),
        url: Some("http://a.com:81/x".to_string()),
        description: None,
        protocol: Some("http".to_string()),
        port: Some(81),
        path: path.map(|s| s.to_string()),
        is_active: active,
        created_at: None,
        updated_at: None,
    }
}

fn step(flow: ServiceFlow, o: Outcome) -> (ServiceFlow, Effect) {
    assert!(flow.accepts(&o));
    flow.resume(o)
}

#[test]
fn add_enabled_service_is_cached_then_inserted() {
    let (flow, effect) = start_add_service(svc(None, "user", Some("/api"), Some(1)), "42".to_string(), "T".to_string());
    assert_eq!(effect, Effect::CacheGet("user/api".to_string()));
    let (flow, effect) = step(flow, Outcome::Cached(String::new()));
    match &effect {
        Effect::CachePut(k, s) => {
            assert_eq!(k, "user/api");
            assert_eq!(s.url.as_deref(), Some("a.com"));
            assert_eq!(s.id.as_deref(), Some("42"));
            assert_eq!(s.created_at.as_deref(), Some("T"));
            assert_eq!(s.updated_at.as_deref(), Some("T"));
        },
        other => panic!("unexpected {:?}", other),
    }
    let (flow, effect) = step(flow, Outcome::Failed("cache down".to_string()));
    assert!(matches!(effect, Effect::StoreInsert(_)));
    let (flow, effect) = step(flow, Outcome::Rows(1));
    assert_eq!(effect, Effect::Finish(Ok(1)));
    assert!(!flow.accepts(&Outcome::Done));
}

#[test]
fn add_disabled_service_skips_cache() {
    let (flow, _) = start_add_service(svc(None, "user", None, Some(2)), "1".to_string(), "T".to_string());
    let (flow, effect) = step(flow, Outcome::Cached(String::new()));
    assert!(matches!(effect, Effect::StoreInsert(_)));
    let (_, effect) = step(flow, Outcome::Failed("db".to_string()));
    assert_eq!(effect, Effect::Finish(Err(ServiceError::Storage("db".to_string()))));
}

#[test]
fn add_duplicate_is_refused() {
    let (flow, _) = start_add_service(svc(None, "user", None, Some(1)), "1".to_string(), "T".to_string());
    assert!(!flow.accepts(&Outcome::Failed("x".to_string())));
    let (_, effect) = step(flow, Outcome::Cached("{}".to_string()));
    assert_eq!(effect, Effect::Finish(Err(ServiceError::DuplicateService)));
}

#[test]
fn add_without_name_has_no_key() {
    let mut s = svc(None, "", None, Some(1));
    s.server_name = None;
    let (_, effect) = start_add_service(s, "1".to_string(), "T".to_string());
    assert_eq!(effect, Effect::Finish(Err(ServiceError::EmptyKey)));
}

#[test]
fn add_with_unparsable_address() {
    let mut s = svc(None, "user", None, Some(1));
    s.url = Some("http://".to_string());
    let (_, effect) = start_add_service(s, "1".to_string(), "T".to_string());
    assert_eq!(effect, Effect::Finish(Err(ServiceError::InvalidUrl)));
    let (_, effect) = prepare_add_service(svc(None, "user", None, None), Err(UrlError::Other("x".to_string())), "1".to_string(), "T".to_string());
    assert_eq!(effect, Effect::Finish(Err(ServiceError::InvalidUrl)));
}

#[test]
fn add_service_uses_generated_id() {
    let (_, effect) = SysServiceService {}.add_service(svc(None, "user", None, Some(1)));
    assert_eq!(effect, Effect::CacheGet("user".to_string()));
}

#[test]
fn update_keeping_key_checks_owner() {
    let (flow, effect) = start_update_service(svc(Some("7"), "user", Some("/a"), None), "T2".to_string());
    assert_eq!(effect, Effect::StoreFind("7".to_string()));
    let (flow, effect) = step(flow, Outcome::Found(Some(svc(Some("7"), "user", Some("/a"), Some(1)))));
    assert_eq!(effect, Effect::CacheGetService("user/a".to_string()));
    let (_, effect) = step(flow, Outcome::CachedService(svc(Some("8"), "user", Some("/a"), Some(1))));
    assert_eq!(effect, Effect::Finish(Err(ServiceError::DuplicateService)));
}

#[test]
fn update_keeping_key_same_owner_rewrites_cache() {
    let (flow, _) = start_update_service(svc(Some("7"), "user", Some("/a"), None), "T2".to_string());
    let (flow, _) = step(flow, Outcome::Found(Some(svc(Some("7"), "user", Some("/a"), Some(1)))));
    let (flow, effect) = step(flow, Outcome::CachedService(svc(Some("7"), "user", Some("/a"), Some(1))));
    match &effect {
        Effect::StoreUpdate(s) => assert_eq!(s.updated_at.as_deref(), Some("T2")),
        other => panic!("unexpected {:?}", other),
    }
    let (flow, effect) = step(flow, Outcome::Rows(1));
    assert_eq!(effect, Effect::StoreFind("7".to_string()));
    let reloaded = svc(Some("7"), "user", Some("/a"), Some(1));
    let (flow, effect) = step(flow, Outcome::Found(Some(reloaded.clone())));
    assert_eq!(effect, Effect::CachePut("user/a".to_string(), reloaded));
    let (_, effect) = step(flow, Outcome::Done);
    assert_eq!(effect, Effect::Finish(Ok(1)));
}

#[test]
fn update_to_new_key_moves_entry() {
    let (flow, _) = start_update_service(svc(Some("7"), "user", Some("/b"), None), "T2".to_string());
    let (flow, _) = step(flow, Outcome::Found(Some(svc(Some("7"), "user", Some("/a"), Some(1)))));
    let cached_without_id = svc(None, "user", Some("/a"), Some(1));
    let (flow, effect) = step(flow, Outcome::CachedService(cached_without_id));
    assert_eq!(effect, Effect::CacheGet("user/b".to_string()));
    let (flow, effect) = step(flow, Outcome::Cached(String::new()));
    assert!(matches!(effect, Effect::StoreUpdate(_)));
    let (flow, _) = step(flow, Outcome::Rows(1));
    let (flow, effect) = step(flow, Outcome::Found(Some(svc(Some("7"), "user", Some("/b"), Some(1)))));
    assert!(matches!(effect, Effect::CachePut(ref k, _) if k == "user/b"));
    let (flow, effect) = step(flow, Outcome::Done);
    assert_eq!(effect, Effect::CacheDelete("user/a".to_string()));
    let (_, effect) = step(flow, Outcome::Failed("x".to_string()));
    assert_eq!(effect, Effect::Finish(Ok(1)));
}

#[test]
fn update_to_taken_key_is_refused() {
    let (flow, _) = start_update_service(svc(Some("7"), "user", Some("/b"), None), "T2".to_string());
    let (flow, _) = step(flow, Outcome::Found(Some(svc(Some("7"), "user", Some("/a"), Some(1)))));
    let (flow, _) = step(flow, Outcome::CachedService(svc(Some("7"), "user", Some("/a"), Some(1))));
    let (_, effect) = step(flow, Outcome::Cached("{}".to_string()));
    assert_eq!(effect, Effect::Finish(Err(ServiceError::DuplicateService)));
}

#[test]
fn update_of_missing_row_is_refused_by_accepts() {
    let (flow, _) = start_update_service(svc(Some("7"), "user", None, None), "T".to_string());
    assert!(!flow.accepts(&Outcome::Found(None)));
    let (_, effect) = step(flow, Outcome::Failed("db".to_string()));
    assert_eq!(effect, Effect::Finish(Err(ServiceError::Storage("db".to_string()))));
}

#[test]
fn delete_removes_keys_then_rows() {
    let ids = vec!["1".to_string(), "2".to_string()];
    let (flow, effect) = SysServiceService {}.delete_service_by_ids(ids.clone());
    assert_eq!(effect, Effect::StoreFindMany(ids.clone()));
    let found = vec![svc(Some("1"), "a", Some("/x"), Some(1)), svc(Some("2"), "b", None, Some(2))];
    let (flow, effect) = step(flow, Outcome::FoundMany(found));
    assert_eq!(effect, Effect::CacheDelete("a/x".to_string()));
    assert!(!flow.accepts(&Outcome::Failed("x".to_string())));
    let (flow, effect) = step(flow, Outcome::Done);
    assert_eq!(effect, Effect::CacheDelete("b".to_string()));
    let (flow, effect) = step(flow, Outcome::Done);
    assert_eq!(effect, Effect::StoreDeleteMany(ids));
    let (_, effect) = step(flow, Outcome::Rows(2));
    assert_eq!(effect, Effect::Finish(Ok(2)));
}

#[test]
fn delete_with_nothing_found_deletes_rows_only() {
    let ids = vec!["9".to_string()];
    let (flow, _) = SysServiceService {}.delete_service_by_ids(ids.clone());
    let (flow, effect) = step(flow, Outcome::FoundMany(vec![]));
    assert_eq!(effect, Effect::StoreDeleteMany(ids));
    let (_, effect) = step(flow, Outcome::Rows(0));
    assert_eq!(effect, Effect::Finish(Ok(0)));
}

#[test]
fn disable_removes_cache_entry() {
    let arg = UpdateIsActive { id: Some("7".to_string()), is_active: Some(2) };
    let (flow, effect) = start_update_is_active(&arg, "T3".to_string());
    assert_eq!(effect, Effect::StoreFind("7".to_string()));
    let (flow, effect) = step(flow, Outcome::Found(Some(svc(Some("7"), "user", Some("/a"), Some(1)))));
    assert_eq!(effect, Effect::CacheDelete("user/a".to_string()));
    let (flow, effect) = step(flow, Outcome::Done);
    match &effect {
        Effect::StoreUpdate(s) => {
            assert_eq!(s.is_active, Some(2));
            assert_eq!(s.updated_at.as_deref(), Some("T3"));
        },
        other => panic!("unexpected {:?}", other),
    }
    let (_, effect) = step(flow, Outcome::Rows(1));
    assert_eq!(effect, Effect::Finish(Ok(1)));
}

#[test]
fn enable_publishes_entry_and_reports_cache_failure() {
    let arg = UpdateIsActive { id: Some("7".to_string()), is_active: Some(1) };
    let (flow, _) = start_update_is_active(&arg, "T3".to_string());
    let (flow, effect) = step(flow, Outcome::Found(Some(svc(Some("7"), "user", None, Some(2)))));
    match &effect {
        Effect::CachePut(k, s) => {
            assert_eq!(k, "user");
            assert_eq!(s.is_active, Some(1));
        },
        other => panic!("unexpected {:?}", other),
    }
    let (_, effect) = step(flow, Outcome::Failed("cache down".to_string()));
    assert_eq!(effect, Effect::Finish(Err(ServiceError::Storage("cache down".to_string()))));
}

#[test]
fn sync_skips_services_without_key() {
    let mut nameless = svc(Some("3"), "", None, Some(1));
    nameless.server_name = None;
    let entries = sync_tables_data(vec![svc(Some("1"), "a", Some("/x"), Some(1)), nameless, svc(Some("2"), "b", None, Some(1))]);
    let keys: Vec<&str> = entries.iter().map(|(k, _)| k.as_str()).collect();
    assert_eq!(keys, vec!["a/x", "b"]);
    assert_eq!(entries[1].1.id.as_deref(), Some("2"));
    assert!(sync_tables_data(vec![]).is_empty());
}

#[test]
fn page_query_defaults() {
    let q = SysServiceService {}.select_service_by_page(&SelectServiceByPageReqVO {
        server_name: None,
        is_active: None,
        page_no: Some(2),
        page_size: None,
    });
    assert_eq!((q.page_no, q.page_size, q.server_name.as_str(), q.is_active), (2, 0, "", 0));
    let q = SysServiceService {}.select_service_by_page(&SelectServiceByPageReqVO {
        server_name: Some("u".to_string()),
        is_active: Some(1),
        page_no: None,
        page_size: Some(10),
    });
    assert_eq!((q.page_no, q.page_size, q.server_name.as_str(), q.is_active), (1, 10, "u", 1));
    assert_eq!((q.total, q.do_count), (10, true));
}

#[test]
fn add_without_flag_is_enabled_and_cached() {
    let (flow, _) = start_add_service(svc(None, "user", None, None), "5".to_string(), "T".to_string());
    let (_, effect) = step(flow, Outcome::Cached(String::new()));
    match &effect {
        Effect::CachePut(k, s) => {
            assert_eq!(k, "user");
            assert_eq!(s.is_active, Some(1));
        },
        other => panic!("unexpected {:?}", other),
    }
}
