use api::auth::{
    admin_gate, build_csrf_cookie, build_session_cookie, clear_cookie, enforce_csrf, permission_gate,
    read_cookie, session_realm_gate, verify_double_submit, Realm, CSRF_HEADER,
};
use api::config::{resolve_app_env, resolve_frontend_origin, resolve_port, AppEnv, DEFAULT_APP_ENV};
use http::header::COOKIE;
use http::{HeaderMap, HeaderValue, Method};

fn headers_with_cookie(raw: &str) -> HeaderMap {
    let mut h = HeaderMap::new();
    h.insert(COOKIE, HeaderValue::from_str(raw).unwrap());
    h
}

fn cookie_text(h: &HeaderMap) -> Option<&str> {
    h.get(COOKIE).and_then(|v| v.to_str().ok())
}

fn csrf(method: Method, h: &HeaderMap, realm: Realm) -> Result<(), api::error::ApiError> {
    let header = h.get(CSRF_HEADER).and_then(|v| v.to_str().ok());
    enforce_csrf(method.as_str(), cookie_text(h), header, realm)
}

#[test]
fn reads_named_cookie_among_many() {
    let h = headers_with_cookie("a=1; ost_staff_sess=abc123; b=2");
    assert_eq!(read_cookie(cookie_text(&h), "ost_staff_sess").as_deref(), Some("abc123"));
    assert_eq!(read_cookie(cookie_text(&h), "a").as_deref(), Some("1"));
    assert_eq!(read_cookie(cookie_text(&h), "missing"), None);
}

#[test]
fn read_cookie_absent_header_is_none() {
    let h = HeaderMap::new();
    assert_eq!(read_cookie(cookie_text(&h), "x"), None);
}

#[test]
fn session_cookie_is_httponly_lax_and_secure_only_in_prod() {
    let dev = build_session_cookie(Realm::Staff, "v", 86400, false);
    assert!(dev.starts_with("ost_staff_sess=v"));
    assert!(dev.contains("HttpOnly"));
    assert!(dev.contains("SameSite=Lax"));
    assert!(dev.contains("Max-Age=86400"));
    assert!(!dev.contains("Secure"), "dev cookie must not be Secure");

    let prod = build_session_cookie(Realm::Client, "v", 86400, true);
    assert!(prod.contains("Secure"));
    assert!(prod.starts_with("ost_client_sess=v"));
}

#[test]
fn csrf_cookie_is_not_httponly() {
    let c = build_csrf_cookie(Realm::Staff, "tok", 86400, false);
    assert!(c.starts_with("XSRF-TOKEN-STAFF=tok"));
    assert!(!c.contains("HttpOnly"), "CSRF cookie must be readable by JS");
    assert!(c.contains("SameSite=Lax"));
}

#[test]
fn clear_cookie_expires_immediately() {
    let c = clear_cookie("ost_staff_sess");
    assert!(c.contains("Max-Age=0"));
}

#[test]
fn get_is_exempt_from_csrf() {
    assert!(csrf(Method::GET, &HeaderMap::new(), Realm::Staff).is_ok());
}

#[test]
fn post_without_token_is_rejected() {
    let err = csrf(Method::POST, &HeaderMap::new(), Realm::Staff).unwrap_err();
    assert_eq!(err.status(), 403);
}

#[test]
fn post_with_matching_token_is_accepted() {
    let mut h = HeaderMap::new();
    h.insert(COOKIE, HeaderValue::from_static("XSRF-TOKEN-STAFF=tok123"));
    h.insert(CSRF_HEADER, HeaderValue::from_static("tok123"));
    assert!(csrf(Method::POST, &h, Realm::Staff).is_ok());
}

#[test]
fn post_with_mismatched_token_is_rejected() {
    let mut h = HeaderMap::new();
    h.insert(COOKIE, HeaderValue::from_static("XSRF-TOKEN-STAFF=tok123"));
    h.insert(CSRF_HEADER, HeaderValue::from_static("WRONG"));
    assert!(csrf(Method::POST, &h, Realm::Staff).is_err());
}

#[test]
fn cookie_pairs_are_trimmed_and_first_wins() {
    assert_eq!(read_cookie(Some(" a = 1 ;a=2"), "a").as_deref(), Some("1"));
    assert_eq!(read_cookie(Some("noequals; b=x=y"), "b").as_deref(), Some("x=y"));
    assert_eq!(read_cookie(Some(""), "a"), None);
}

#[test]
fn double_submit_needs_equal_non_empty_tokens() {
    assert!(verify_double_submit(Some("t"), Some("t")));
    assert!(!verify_double_submit(Some(""), Some("")));
    assert!(!verify_double_submit(None, Some("t")));
    assert!(!verify_double_submit(Some("t"), None));
    let mut h = HeaderMap::new();
    h.insert(COOKIE, HeaderValue::from_static("XSRF-TOKEN-CLIENT=abc"));
    h.insert(CSRF_HEADER, HeaderValue::from_static("abc"));
    assert!(csrf(Method::DELETE, &h, Realm::Client).is_ok());
    assert!(csrf(Method::PATCH, &h, Realm::Staff).is_err());
}

#[test]
fn gates_answer_401_or_403() {
    assert_eq!(admin_gate(None).unwrap_err().status(), 401);
    assert_eq!(admin_gate(Some(false)).unwrap_err().status(), 403);
    assert!(admin_gate(Some(true)).is_ok());
    assert_eq!(permission_gate(Some(false)).unwrap_err().status(), 403);
    assert!(session_realm_gate(Realm::Staff, Some(Realm::Client)).is_err());
    assert!(session_realm_gate(Realm::Client, Some(Realm::Client)).is_ok());
}

#[test]
fn app_env_fails_safe_to_production() {
    assert_eq!(AppEnv::from_str_lossy("development"), AppEnv::Development);
    assert_eq!(AppEnv::from_str_lossy("DEVELOPMENT"), AppEnv::Development);
    assert_eq!(AppEnv::from_str_lossy("test"), AppEnv::Development);
    assert_eq!(AppEnv::from_str_lossy("production"), AppEnv::Production);
    assert_eq!(AppEnv::from_str_lossy(""), AppEnv::Production);
    assert_eq!(AppEnv::from_str_lossy("prod"), AppEnv::Production);
    assert_eq!(AppEnv::from_str_lossy("develop"), AppEnv::Production);
    assert_eq!(AppEnv::from_str_lossy("dev"), AppEnv::Production);
    assert_eq!(AppEnv::from_str_lossy(DEFAULT_APP_ENV), AppEnv::Production);
}

#[test]
fn dev_endpoints_enabled_only_in_development() {
    assert!(AppEnv::Development.dev_endpoints_enabled());
    assert!(!AppEnv::Production.dev_endpoints_enabled());
    assert!(AppEnv::Production.cookies_secure());
    assert!(!AppEnv::Development.cookies_secure());
}

#[test]
fn environment_settings_resolve_with_defaults() {
    assert_eq!(resolve_port(Some("8080"), Some("9090")), 8080);
    assert_eq!(resolve_port(None, Some("9090")), 9090);
    assert_eq!(resolve_port(Some("bad"), Some("9090")), 3701);
    assert_eq!(resolve_port(Some("70000"), None), 3701);
    assert_eq!(resolve_frontend_origin(Some("")), "http://localhost:3702");
    assert_eq!(resolve_frontend_origin(Some("http://x")), "http://x");
    assert_eq!(resolve_app_env(Some("Test")), AppEnv::Development);
    assert_eq!(resolve_app_env(None), AppEnv::Production);
}

#[test]
fn cookie_set_by_a_realm_is_read_back() {
    for realm in [Realm::Staff, Realm::Client] {
        let set = build_session_cookie(realm, "s3ss10n", 60, true);
        let pair = set.split(';').next().unwrap();
        let name = api::auth::session_cookie_name(realm);
        assert_eq!(read_cookie(Some(pair), name).as_deref(), Some("s3ss10n"));
        let set = build_csrf_cookie(realm, "t0k=en", 60, false);
        let pair = set.split(';').next().unwrap().to_string();
        let name = api::auth::csrf_cookie_name(realm);
        assert_eq!(read_cookie(Some(&pair), name).as_deref(), Some("t0k=en"));
        assert!(enforce_csrf("DELETE", Some(&pair), Some("t0k=en"), realm).is_ok());
    }
}
