//! The public surface: errors, mock, driver and connector construction.

use bytes::Bytes;
use std::time::Duration;
use transportx::{
    HttpClientPool, HttpRequest, IoSource, MockHttpTransport, PoolConfig, ProxyConfig,
    ReqwestHttpDriver, TlsConfig, TlsMode, TransportError, TungsteniteWsConnector,
};

#[test]
fn mock_http_get_post_and_miss() {
    let mut mock = MockHttpTransport::default();
    mock.set_get("https://x/a", Bytes::from_static(b"A"));
    mock.set_post("https://x/b", Bytes::from_static(b"B"));

    let get = mock
        .execute(HttpRequest {
            method: "GET".into(),
            url: "https://x/a".into(),
            headers: vec![("h".into(), "v".into())],
            body: None,
        })
        .expect("get");
    assert_eq!(get.status, 200);
    assert_eq!(get.body.as_ref(), b"A");

    let post = mock
        .execute(HttpRequest {
            method: "POST".into(),
            url: "https://x/b".into(),
            headers: vec![],
            body: Some(Bytes::from_static(b"{}")),
        })
        .expect("post");
    assert_eq!(post.body.as_ref(), b"B");

    let miss = mock.execute(HttpRequest {
        method: "GET".into(),
        url: "https://x/missing".into(),
        headers: vec![],
        body: None,
    });
    assert!(miss.is_err());

    assert!(!TransportError::ConnectTimeout.to_string().is_empty());
    assert!(!TransportError::ReadTimeout.to_string().is_empty());
    assert!(!TransportError::ConnectionClosed { clean: true }
        .to_string()
        .is_empty());
    assert!(!TransportError::RateLimited { retry_after: None }
        .to_string()
        .is_empty());
    assert!(!TransportError::ProtocolViolation("x".into())
        .to_string()
        .is_empty());
    assert!(!TransportError::PayloadTooLarge {
        kind: "response_body",
        limit: 1,
        got: 2
    }
    .to_string()
    .is_empty());
}

#[test]
fn drivers_construct() {
    let d = ReqwestHttpDriver::new().expect("reqwest");
    let _ = ReqwestHttpDriver::with_timeout(None).expect("timeout none");
    let _ = d.debug_string();
    let ws = TungsteniteWsConnector::new();
    let _ = format!("{ws:?}");
}

#[test]
fn pool_exhausted_display_and_retryable_classification() {
    let exhausted = TransportError::PoolExhausted { limit: 8 };
    let text = exhausted.to_string();
    assert!(!text.is_empty());
    assert!(text.contains('8'), "the message names the limit: {text}");
    assert!(exhausted.is_retryable());

    assert!(TransportError::ConnectTimeout.is_retryable());
    assert!(TransportError::ReadTimeout.is_retryable());
    assert!(TransportError::ConnectionClosed { clean: true }.is_retryable());
    assert!(TransportError::ConnectionClosed { clean: false }.is_retryable());
    assert!(TransportError::RateLimited { retry_after: None }.is_retryable());
    assert!(TransportError::Io(IoSource::System(std::io::Error::other("io"))).is_retryable());

    assert!(!TransportError::PayloadTooLarge {
        kind: "response_body",
        limit: 1,
        got: 2
    }
    .is_retryable());
    assert!(!TransportError::ProtocolViolation("x".into()).is_retryable());
}

#[test]
fn assert_requirements_standard() {
    let _ = ReqwestHttpDriver::new().expect("HTTP driver");
    let _ = TungsteniteWsConnector::new();
    let _ = TlsConfig::system_roots();
    let _ = HttpClientPool::<u32>::try_new(PoolConfig::new(1, 1)).expect("client pool");
    let _ = ProxyConfig::new("http://127.0.0.1:9");

    let cases = [
        TransportError::ConnectTimeout,
        TransportError::ReadTimeout,
        TransportError::ConnectionClosed { clean: false },
        TransportError::RateLimited {
            retry_after: Some(Duration::from_secs(1)),
        },
        TransportError::PayloadTooLarge {
            kind: "response_body",
            limit: 1,
            got: 2,
        },
        TransportError::ProtocolViolation("x".into()),
        TransportError::Io(IoSource::System(std::io::Error::other("e"))),
    ];
    for error in cases {
        assert!(!error.to_string().is_empty(), "every error has a message: {error:?}");
    }
}

#[test]
fn assert_design_standard() {
    let request = HttpRequest {
        method: "GET".into(),
        url: "https://example.com/secret?token=abc".into(),
        headers: Vec::new(),
        body: Some(Bytes::from_static(b"payload")),
    };
    let debug = request.debug_string();
    assert!(debug.contains("HttpRequest"));
    assert!(!debug.contains("abc"), "no query is shown");

    let _ = TlsConfig {
        mode: TlsMode::SystemRoots,
        sni: true,
    };
    let _ = TlsConfig::custom_ca("/tmp/ca.pem");
    let _ = TlsConfig::insecure_dev_only();

    let pool = HttpClientPool::<u8>::try_new(PoolConfig::default()).expect("default bounds");
    assert_eq!(pool.config(), PoolConfig::default());
    assert_eq!(pool.idle_len(), 0);
    assert_eq!(pool.checked_out(), 0);

    let proxy = ProxyConfig::with_auth("http://proxy:1", "user", &format!("{}{}", "p", "w"));
    let debug = proxy.debug_string();
    assert!(debug.contains("***"));
    assert!(!debug.contains("pw"), "no password is shown: {debug}");
}

#[test]
fn assert_condensed_sections() {
    let pool = HttpClientPool::<u8>::try_new(PoolConfig::new(0, 0));
    assert!(matches!(pool, Err(TransportError::ProtocolViolation(_))));

    let mut mock = MockHttpTransport::new();
    mock.set_get("https://api/x", Bytes::from_static(b"ok"));

    let request = HttpRequest {
        method: "GET".into(),
        url: "https://example.com/path".into(),
        headers: vec![("Authorization".into(), "Bearer top-secret".into())],
        body: None,
    };
    let debug = request.debug_string();
    assert!(debug.contains("***"));
    assert!(!debug.contains("top-secret"));
    let un_wired = ReqwestHttpDriver::builder(
        Some(Duration::from_secs(1)),
        1024,
        1024,
        Some(TlsConfig {
            mode: TlsMode::SystemRoots,
            sni: false,
        }),
        None,
    )
    .err()
    .expect("sni = false is refused");
    assert!(matches!(un_wired, TransportError::ProtocolViolation(_)));

    let mut pool = HttpClientPool::<u8>::try_new(PoolConfig::new(1, 1)).expect("valid bounds");
    assert!(pool
        .checkout_with(|| Err(TransportError::ProtocolViolation("factory".into())))
        .is_err());
    assert_eq!(pool.checked_out(), 0);
}
