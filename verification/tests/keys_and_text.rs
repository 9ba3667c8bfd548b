use moyu_gateway::cache::read_result;
use moyu_gateway::error::ServiceError;
use moyu_gateway::keys::get_redis_key;
use moyu_gateway::model::{AddServiceReqVO, SysServices, UpdateServiceReqVO};
use moyu_gateway::text::{decimal_string, has_prefix, signed_decimal_string};
use moyu_gateway::urls::normalize_service_url;

fn service(name: Option<&str>, path: Option<&str>) -> SysServices {
    SysServices {
        id: None,
        server_name: name.map(|s| s.to_string()),
        url: None,
        description: None,
        protocol: None,
        port: None,
        path: path.map(|s| s.to_string()),
        is_active: None,
        created_at: None,
        updated_at: None,
    }
}

#[test]
fn redis_key_is_name_then_path() {
    assert_eq!(get_redis_key(service(Some("user"), Some("/api"))), Some("user/api".to_string()));
}

#[test]
fn redis_key_without_path_is_name() {
    assert_eq!(get_redis_key(service(Some("user"), None)), Some("user".to_string()));
}

#[test]
fn redis_key_without_name_is_empty() {
    assert_eq!(get_redis_key(service(None, Some("/api"))), Some(String::new()));
}

#[test]
fn normalize_keeps_http_and_https() {
    assert_eq!(normalize_service_url("http://a.com"), "http://a.com");
    assert_eq!(normalize_service_url("https://a.com/x"), "https://a.com/x");
}

#[test]
fn normalize_adds_default_scheme() {
    assert_eq!(normalize_service_url("a.com:8080"), "http://a.com:8080");
    assert_eq!(normalize_service_url("ftp://a.com"), "http://ftp://a.com");
    assert_eq!(normalize_service_url(""), "http://");
}

#[test]
fn normalize_is_idempotent_on_example() {
    let once = normalize_service_url("svc.local");
    assert_eq!(normalize_service_url(&once), once);
}

#[test]
fn decimal_rendering() {
    assert_eq!(decimal_string(0), "0");
    assert_eq!(decimal_string(8080), "8080");
    assert_eq!(decimal_string(u64::MAX), u64::MAX.to_string());
    assert_eq!(signed_decimal_string(-42), "-42");
    assert_eq!(signed_decimal_string(i64::MIN), i64::MIN.to_string());
    assert_eq!(signed_decimal_string(1234567890123), "1234567890123");
}

#[test]
fn prefix_test() {
    assert!(has_prefix("https://x", "https://"));
    assert!(!has_prefix("http", "http://"));
    assert!(has_prefix("abc", ""));
}

#[test]
fn error_messages() {
    assert_eq!(ServiceError::InvalidUrl.message(), "url 解析失败");
    assert_eq!(ServiceError::EmptyKey.message(), "redis key 生成失败");
    assert_eq!(ServiceError::DuplicateService.message(), "已有同名服务名称和路径,请重新命名");
    assert_eq!(ServiceError::Storage("boom".to_string()).message(), "boom");
}

#[test]
fn cache_read_results() {
    assert_eq!(read_result("k", Ok(Some("v".to_string()))), Ok("v".to_string()));
    assert_eq!(read_result("k", Ok(None)), Ok(String::new()));
    assert_eq!(
        read_result("k", Err("down".to_string())),
        Err("RedisService get_string(k) fail:down".to_string())
    );
}

#[test]
fn requests_become_services() {
    let add = AddServiceReqVO {
        server_name: Some("user".to_string()),
        url: Some("a.com".to_string()),
        description: Some("d".to_string()),
        protocol: Some("http".to_string()),
        port: Some(80),
        path: Some("/api".to_string()),
        is_active: Some(1),
    };
    let s = SysServices::from_add_request(&add);
    assert_eq!(s.id, None);
    assert_eq!(s.server_name.as_deref(), Some("user"));
    assert_eq!(s.url.as_deref(), Some("a.com"));
    assert_eq!(s.port, Some(80));
    assert_eq!(s.is_active, Some(1));
    assert_eq!(s.created_at, None);
    let upd = UpdateServiceReqVO {
        id: Some("7".to_string()),
        server_name: Some("user".to_string()),
        url: None,
        description: None,
        protocol: Some("https".to_string()),
        port: None,
        path: None,
    };
    let u = SysServices::from_update_request(&upd);
    assert_eq!(u.id.as_deref(), Some("7"));
    assert_eq!(u.protocol.as_deref(), Some("https"));
    assert_eq!(u.is_active, None);
    assert_eq!(u.updated_at, None);
}
