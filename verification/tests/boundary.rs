//! Edge cases of the boundary: odd `Retry-After` values, redaction, pool bounds.

use bytes::Bytes;
use std::time::Duration;
use transportx::{
    is_sensitive_header_name, origin_shown, parse_retry_after_at, redacted_url, url_origin,
    HttpClientPool, HttpRequest, HttpResponse, PoolConfig, ProxyConfig, TransportError, UnixTime,
};

#[test]
fn retry_after_extreme_seconds() {
    let now = UnixTime::from_secs(0);
    assert_eq!(
        parse_retry_after_at(&u64::MAX.to_string(), now),
        Some(Duration::from_secs(u64::MAX))
    );
}

#[test]
fn retry_after_past_date_and_invalid() {
    let now = UnixTime::from_secs(1_700_000_000);
    assert_eq!(
        parse_retry_after_at("Thu, 01 Jan 1970 00:00:00 GMT", now),
        Some(Duration::ZERO)
    );
    assert_eq!(parse_retry_after_at("not-a-value", now), None);
    assert_eq!(parse_retry_after_at("", now), None);
    assert_eq!(parse_retry_after_at("   ", now), None);
}

#[test]
fn sensitive_header_matching_is_case_insensitive() {
    for name in [
        "AUTHORIZATION",
        "Set-Cookie",
        "OK-ACCESS-PASSPHRASE",
        "X-Weird-Token",
        "my-secret",
        "APIKEY",
    ] {
        assert!(is_sensitive_header_name(name), "{name} is sensitive");
    }
    assert!(!is_sensitive_header_name("Accept-Language"));
}

#[test]
fn invalid_url_debug_is_fail_closed() {
    let request = HttpRequest {
        method: "GET".into(),
        url: "not a url".into(),
        headers: Vec::new(),
        body: None,
    };
    let debug = request.debug_string();
    assert!(debug.contains("invalid-url-redacted"));
    assert!(!debug.contains("not a url"), "the URL is not echoed: {debug}");

    let opaque = HttpRequest {
        method: "GET".into(),
        url: "mailto:ops@example.com".into(),
        headers: Vec::new(),
        body: None,
    };
    let debug = opaque.debug_string();
    assert!(
        !debug.contains("ops@example.com"),
        "nothing of the address is shown: {debug}"
    );
}

#[test]
fn body_debug_only_shows_length() {
    let request = HttpRequest {
        method: "POST".into(),
        url: "https://api/write".into(),
        headers: Vec::new(),
        body: Some(Bytes::from_static(b"secret-body")),
    };
    let debug = request.debug_string();
    assert!(!debug.contains("secret-body"));
    assert!(debug.contains("11 bytes"), "the length is shown: {debug}");

    let empty = HttpRequest {
        method: "POST".into(),
        url: "https://api/write".into(),
        headers: Vec::new(),
        body: None,
    };
    assert!(empty.debug_string().contains("None"));
}

#[test]
fn proxy_password_is_redacted() {
    let secret = format!("{}-{}", "super", "secret");
    let proxy = ProxyConfig::with_auth("http://proxy:1", "u", &secret);
    let debug = proxy.debug_string();
    assert!(debug.contains("***"));
    assert!(!debug.contains(secret.as_str()));
}

#[test]
fn pool_config_boundaries_fail_closed() {
    assert!(matches!(
        HttpClientPool::<u8>::try_new(PoolConfig::new(1, 2)),
        Err(TransportError::ProtocolViolation(_))
    ));
    assert!(matches!(
        HttpClientPool::<u8>::try_new(PoolConfig::new(0, 0)),
        Err(TransportError::ProtocolViolation(_))
    ));
    assert!(HttpClientPool::<u8>::try_new(PoolConfig::new(1, 1)).is_ok());
}

#[test]
fn request_text_is_exact() {
    let request = HttpRequest {
        method: "GET".into(),
        url: "https://user:pw@example.com:8443/path?token=abc#frag".into(),
        headers: vec![
            ("Accept".into(), "a\"b".into()),
            ("Authorization".into(), "Bearer x".into()),
        ],
        body: Some(Bytes::from_static(b"12345")),
    };
    assert_eq!(
        request.debug_string(),
        "HttpRequest { method: \"GET\", url: \"https://example.com:8443\", headers: \
         [(\"Accept\", \"a\\\"b\"), (\"Authorization\", \"***\")], body: Some(<5 bytes>) }"
    );
    let empty = HttpRequest {
        method: "GET".into(),
        url: "https://example.com:443/".into(),
        headers: Vec::new(),
        body: None,
    };
    assert_eq!(
        empty.debug_string(),
        "HttpRequest { method: \"GET\", url: \"https://example.com\", headers: [], body: None }"
    );
}

#[test]
fn response_text_is_exact() {
    let response = HttpResponse {
        status: 404,
        body: Bytes::from_static(b"secret"),
    };
    assert_eq!(
        response.debug_string(),
        "HttpResponse { status: 404, body: Some(<6 bytes>) }"
    );
}

#[test]
fn proxy_text_is_exact() {
    assert_eq!(
        ProxyConfig::new("http://u:p@proxy:1/x").debug_string(),
        "ProxyConfig { url: \"http://proxy:1\", auth: None }"
    );
    assert_eq!(
        ProxyConfig::with_auth("http://proxy:1", "u", "p").debug_string(),
        "ProxyConfig { url: \"http://proxy:1\", auth: Some(\"***\") }"
    );
}

#[test]
fn urls_without_a_host_are_not_shown() {
    for url in ["file:///etc/passwd", "data:text/plain,hi", "http://", ""] {
        let request = HttpRequest {
            method: "GET".into(),
            url: url.into(),
            headers: Vec::new(),
            body: None,
        };
        assert!(request.debug_string().contains("\"<invalid-url-redacted>\""), "{url}");
    }
}

#[test]
fn nested_opaque_urls_are_shown_as_a_mark() {
    let deep = "blob:".repeat(400_000);
    assert_eq!(redacted_url(&deep), "\"<invalid-url-redacted>\"");
    assert_eq!(
        redacted_url("blob:https://example.com/x"),
        "\"<invalid-url-redacted>\""
    );
    assert_eq!(redacted_url("blob://host/x"), "\"null\"");
    assert!(ProxyConfig::new(&deep)
        .debug_string()
        .contains("<invalid-url-redacted>"));
}

#[test]
fn origins_are_shown_quoted() {
    let origin = url_origin("https://u:p@example.com:8443/x");
    assert_eq!(origin.as_deref(), Some("https://example.com:8443"));
    assert_eq!(origin_shown(&origin), "\"https://example.com:8443\"");
    assert_eq!(url_origin("mailto:a@b"), None);
    assert_eq!(url_origin("nowhere"), None);
    assert_eq!(origin_shown(&None), "\"<invalid-url-redacted>\"");
}

#[test]
fn shown_text_does_not_depend_on_secrets() {
    let request = |url: &str, token: &str, body: &'static [u8]| HttpRequest {
        method: "GET".into(),
        url: url.into(),
        headers: vec![
            ("X-Token".into(), token.into()),
            ("Accept".into(), "*/*".into()),
        ],
        body: Some(Bytes::from_static(body)),
    };
    assert_eq!(
        request("https://a.example/one?key=1", "first", b"aaaa").debug_string(),
        request("https://me:pw@a.example/two#x", "second", b"bbbb").debug_string()
    );
    let response = |body: &'static [u8]| HttpResponse {
        status: 200,
        body: Bytes::from_static(body),
    };
    assert_eq!(response(b"aaaa").debug_string(), response(b"bbbb").debug_string());
    assert_eq!(
        ProxyConfig::with_auth("http://proxy:1/a", "u", "p").debug_string(),
        ProxyConfig::with_auth("http://x:y@proxy:1/b", "v", "q").debug_string()
    );
}
