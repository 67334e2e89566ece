//! The transport in memory, and the messages of errors.

use bytes::Bytes;
use std::sync::Arc;
use std::time::Duration;
use transportx::{
    reply_with, route_method, HttpRequest, HttpResponse, IoSource, MockHttpTransport,
    MockMethod, ResponseTable, TransportError,
};

fn get_request(url: &str) -> HttpRequest {
    HttpRequest {
        method: "GET".into(),
        url: url.into(),
        headers: Vec::new(),
        body: None,
    }
}

#[test]
fn driver_get_returns_preset_response() {
    let mut driver = MockHttpTransport::new();
    driver.set_get("https://api/ping", Bytes::from_static(b"{}"));
    let response = driver.execute(get_request("https://api/ping")).unwrap();
    assert_eq!(response.body, Bytes::from_static(b"{}"));
}

#[test]
fn driver_missing_url_returns_protocol_violation() {
    let driver = MockHttpTransport::new();
    let err = driver.execute(get_request("https://api/nope")).err().unwrap();
    match err {
        TransportError::ProtocolViolation(msg) => {
            assert!(msg.contains("missing"), "says that it is missing: {msg}");
            assert!(msg.contains("https://api/nope"), "says which URL: {msg}");
            assert_eq!(msg, "mock response missing for GET https://api/nope");
        }
        other => panic!("unexpected: {other:?}"),
    }
}

#[test]
fn driver_post_returns_preset_response_ignoring_body() {
    let mut driver = MockHttpTransport::new();
    driver.set_post("https://api/order", Bytes::from_static(b"ack"));
    let response = driver
        .execute(HttpRequest {
            method: "POST".into(),
            url: "https://api/order".into(),
            headers: Vec::new(),
            body: Some(Bytes::from_static(b"body-ignored")),
        })
        .unwrap();
    assert_eq!(response.body, Bytes::from_static(b"ack"));
}

#[test]
fn set_get_overwrites_previous_response() {
    let mut driver = MockHttpTransport::new();
    driver.set_get("u", Bytes::from_static(b"a"));
    driver.set_get("u", Bytes::from_static(b"b"));
    assert_eq!(
        driver.execute(get_request("u")).unwrap().body,
        Bytes::from_static(b"b")
    );
}

#[test]
fn set_post_overwrites_previous_response() {
    let mut driver = MockHttpTransport::new();
    driver.set_post("p", Bytes::from_static(b"1"));
    driver.set_post("p", Bytes::from_static(b"2"));
    let response = driver
        .execute(HttpRequest {
            method: "POST".into(),
            url: "p".into(),
            headers: Vec::new(),
            body: Some(Bytes::new()),
        })
        .unwrap();
    assert_eq!(response.body.as_ref(), b"2");
}

#[test]
fn get_and_post_are_isolated() {
    let mut driver = MockHttpTransport::new();
    driver.set_get("u", Bytes::from_static(b"g"));
    driver.set_post("u", Bytes::from_static(b"p"));
    assert_eq!(
        driver.execute(get_request("u")).unwrap().body,
        Bytes::from_static(b"g")
    );
    let response = driver
        .execute(HttpRequest {
            method: "POST".into(),
            url: "u".into(),
            headers: Vec::new(),
            body: Some(Bytes::new()),
        })
        .unwrap();
    assert_eq!(response.body, Bytes::from_static(b"p"));
}

#[test]
fn transport_error_keeps_reconnect_semantics() {
    let err = TransportError::ConnectionClosed { clean: false };
    assert_eq!(err.to_string(), "connection closed (false)");
    let err = TransportError::RateLimited {
        retry_after: Some(Duration::from_secs(2)),
    };
    assert!(err.to_string().contains("2s"));
    assert_eq!(
        TransportError::ConnectTimeout.to_string(),
        "connect timeout"
    );
    assert_eq!(TransportError::ReadTimeout.to_string(), "read timeout");
    assert!(TransportError::ProtocolViolation("bad".into())
        .to_string()
        .contains("bad"));
    assert!(TransportError::Io(IoSource::System(std::io::Error::other("x")))
        .to_string()
        .contains("x"));
}

#[test]
fn error_messages_are_exact() {
    assert_eq!(
        TransportError::RateLimited {
            retry_after: Some(Duration::from_millis(1500)),
        }
        .to_string(),
        "rate limitedSome(1.5s)"
    );
    assert_eq!(
        TransportError::RateLimited { retry_after: None }.to_string(),
        "rate limitedNone"
    );
    assert_eq!(
        TransportError::PayloadTooLarge {
            kind: "ws_frame",
            limit: 10,
            got: 12,
        }
        .to_string(),
        "载荷过大: ws_frame 上限 10 字节，实际 12 字节"
    );
    assert_eq!(
        TransportError::ConnectionClosed { clean: true }.to_string(),
        "connection closed (true)"
    );
    assert_eq!(
        TransportError::Io(IoSource::System(std::io::Error::other("x"))).to_string(),
        "I/O error: x"
    );
}

#[test]
fn request_headers_are_part_of_the_boundary() {
    let request = HttpRequest {
        method: "POST".into(),
        url: "https://api/order".into(),
        headers: vec![("X-Token".into(), "redacted".into())],
        body: Some(Bytes::from_static(b"{}")),
    };
    assert_eq!(request.headers[0].0, "X-Token");
    assert_eq!(request.body.as_ref().unwrap().as_ref(), b"{}");
    let response = HttpResponse {
        status: 200,
        body: Bytes::from_static(b"x"),
    };
    assert!(response == response.clone());
    assert!(request == request.clone());
    let _ = format!("{}{}", request.debug_string(), response.debug_string());
}

#[test]
fn mock_http_driver_returns_transport_response() {
    let mut driver = MockHttpTransport::new();
    driver.set_get("https://api/ping", Bytes::from_static(b"{}"));
    let response = driver.execute(get_request("https://api/ping")).unwrap();
    assert_eq!(response.status, 200);
    assert_eq!(response.body, Bytes::from_static(b"{}"));
}

#[test]
fn mock_http_driver_post_and_case_insensitive_method() {
    let mut driver = MockHttpTransport::new();
    driver.set_post("https://api/order", Bytes::from_static(b"ok"));
    let response = driver
        .execute(HttpRequest {
            method: "post".into(),
            url: "https://api/order".into(),
            headers: Vec::new(),
            body: Some(Bytes::from_static(b"ignored")),
        })
        .unwrap();
    assert_eq!(response.status, 200);
    assert_eq!(response.body, Bytes::from_static(b"ok"));
}

#[test]
fn mock_http_driver_unsupported_method() {
    let driver = MockHttpTransport::new();
    let err = driver
        .execute(HttpRequest {
            method: "PUT".into(),
            url: "https://api/x".into(),
            headers: Vec::new(),
            body: None,
        })
        .err()
        .unwrap();
    match err {
        TransportError::ProtocolViolation(msg) => assert!(msg.contains("unsupported")),
        other => panic!("unexpected: {other:?}"),
    }
}

#[test]
fn mock_as_arc_dyn_http_driver() {
    let mut mock = MockHttpTransport::new();
    mock.set_get("u", Bytes::from_static(b"v"));
    let driver = Arc::new(mock);
    let r = driver.execute(get_request("u")).unwrap();
    assert_eq!(r.body.as_ref(), b"v");
}

#[test]
fn mock_debug() {
    let m = MockHttpTransport::default();
    let _ = format!("{m:?}");
}

#[test]
fn unsupported_methods_are_named_in_upper_case() {
    let error = route_method("pAtch").err().unwrap();
    assert_eq!(
        error.to_string(),
        "protocol violation: mock method unsupported: PATCH"
    );
    assert_eq!(route_method("gEt").unwrap(), MockMethod::Get);
    assert_eq!(route_method("POST").unwrap(), MockMethod::Post);
    assert!(route_method("").is_err());
    assert!(route_method("GETS").is_err());
}

#[test]
fn missing_responses_name_the_method_as_it_came() {
    let error = reply_with(None, "get", "u").err().unwrap();
    assert_eq!(
        error.to_string(),
        "protocol violation: mock response missing for get u"
    );
    let response = reply_with(Some(Bytes::from_static(b"x")), "get", "u").unwrap();
    assert_eq!((response.status, response.body.as_ref()), (200, &b"x"[..]));
}

#[test]
fn table_keeps_one_response_per_url() {
    let mut table = ResponseTable::new();
    for (url, body) in [("a", "1"), ("b", "2"), ("a", "3"), ("c", "4"), ("b", "5")] {
        table.insert(url, Bytes::from_static(body.as_bytes()));
    }
    assert_eq!(table.get("a").unwrap().as_ref(), b"3");
    assert_eq!(table.get("b").unwrap().as_ref(), b"5");
    assert_eq!(table.get("c").unwrap().as_ref(), b"4");
    assert!(table.get("d").is_none());
    assert!(ResponseTable::default().get("a").is_none());
}

#[test]
fn setting_one_response_leaves_the_others() {
    let mut driver = MockHttpTransport::new();
    driver.set_get("a", Bytes::from_static(b"1"));
    driver.set_get("b", Bytes::from_static(b"2"));
    driver.set_post("a", Bytes::from_static(b"3"));
    assert_eq!(driver.execute(get_request("a")).unwrap().body.as_ref(), b"1");
    assert_eq!(driver.execute(get_request("b")).unwrap().body.as_ref(), b"2");
}
