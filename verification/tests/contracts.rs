//! What each entry point of the library promises.

use bytes::Bytes;
use std::time::Duration;
use transportx::{
    default_request_timeout, default_ws_connect_timeout, is_sensitive_header_name,
    parse_retry_after_at, retry_after_header, wait_until_date, Checkout, HttpClientPool,
    HttpRequest, MockHttpTransport, PoolConfig, ReqwestHttpDriver, TransportError,
    TungsteniteWsConnector, UnixTime, DEFAULT_MAX_REQUEST_BODY_BYTES,
    DEFAULT_MAX_RESPONSE_BODY_BYTES, DEFAULT_MAX_WS_FRAME_BYTES,
};

fn get_request(url: &str) -> HttpRequest {
    HttpRequest {
        method: "GET".into(),
        url: url.into(),
        headers: Vec::new(),
        body: None,
    }
}

#[test]
fn http_driver_execute_returns_response_and_rejects_unknown() {
    let mut driver = MockHttpTransport::new();
    driver.set_get("https://api/ok", Bytes::from_static(b"{}"));
    let response = driver.execute(get_request("https://api/ok")).expect("response");
    assert_eq!(response.status, 200);
    assert_eq!(response.body, Bytes::from_static(b"{}"));

    let error = driver
        .execute(get_request("https://api/missing"))
        .err()
        .expect("an unknown URL is refused");
    assert!(
        matches!(error, TransportError::ProtocolViolation(_)),
        "error: {error:?}"
    );
}

#[test]
fn reqwest_driver_new_constructs_with_documented_limits() {
    assert_eq!(default_request_timeout(), Duration::from_secs(30));
    let driver = ReqwestHttpDriver::new().expect("default driver");
    let debug = driver.debug_string();
    assert!(
        debug.contains(&DEFAULT_MAX_RESPONSE_BODY_BYTES.to_string()),
        "response limit: {debug}"
    );
    assert!(
        debug.contains(&DEFAULT_MAX_REQUEST_BODY_BYTES.to_string()),
        "request limit: {debug}"
    );
    assert_eq!(DEFAULT_MAX_RESPONSE_BODY_BYTES, 16_777_216);
    assert_eq!(DEFAULT_MAX_REQUEST_BODY_BYTES, 16_777_216);
}

#[test]
fn ws_connector_has_documented_limits() {
    let connector = TungsteniteWsConnector::default();
    assert_eq!(default_ws_connect_timeout(), Duration::from_secs(30));
    assert_eq!(connector.connect_timeout(), Duration::from_secs(30));
    assert_eq!(connector.max_frame_bytes(), 4_194_304);
    assert_eq!(DEFAULT_MAX_WS_FRAME_BYTES, 4_194_304);
    let connector = TungsteniteWsConnector::with_limits(Duration::from_millis(5), 9);
    assert_eq!(connector.connect_timeout(), Duration::from_millis(5));
    assert_eq!(connector.max_frame_bytes(), 9);
}

#[test]
fn pool_try_new_validates_config_recoverably() {
    let error = HttpClientPool::<u32>::try_new(PoolConfig::new(0, 0))
        .err()
        .expect("a pool without places is refused");
    assert!(matches!(error, TransportError::ProtocolViolation(_)));
    let error = HttpClientPool::<u32>::try_new(PoolConfig::new(1, 2))
        .err()
        .expect("more idle than places is refused");
    assert!(matches!(error, TransportError::ProtocolViolation(_)));
    let pool = HttpClientPool::<u32>::try_new(PoolConfig::new(2, 1)).expect("valid bounds");
    assert_eq!(pool.config(), PoolConfig::new(2, 1));
}

#[test]
fn pool_checkout_lease_with_returns_object_on_drop() {
    let mut pool = HttpClientPool::try_new(PoolConfig::new(1, 1)).expect("valid bounds");
    let object = pool.checkout_with(|| Ok(7u32)).expect("checkout");
    assert_eq!(object, 7);
    assert_eq!(pool.checked_out(), 1);
    pool.return_object(object);
    assert_eq!(pool.checked_out(), 0, "the place is given up");
    assert_eq!(pool.idle_len(), 1, "the object is kept");

    let reused = pool.checkout_with(|| Ok(99u32)).expect("reuse");
    assert_eq!(reused, 7, "an idle object comes before a new one");

    let mut failing = HttpClientPool::<u32>::try_new(PoolConfig::new(1, 1)).expect("valid bounds");
    assert!(failing
        .checkout_with(|| Err(TransportError::ProtocolViolation("factory".into())))
        .is_err());
    assert_eq!(failing.checked_out(), 0, "a failed factory takes no place");
}

#[test]
fn pool_is_bounded() {
    let mut pool = HttpClientPool::try_new(PoolConfig::new(2, 1)).expect("valid bounds");
    let a = pool.checkout_with(|| Ok(1u32)).unwrap();
    let b = pool.checkout_with(|| Ok(2u32)).unwrap();
    match pool.checkout_with(|| Ok(3u32)) {
        Err(TransportError::PoolExhausted { limit }) => assert_eq!(limit, 2),
        other => panic!("unexpected: {other:?}"),
    }
    assert_eq!(pool.checked_out(), 2);
    pool.return_object(a);
    pool.return_object(b);
    assert_eq!((pool.idle_len(), pool.checked_out()), (1, 0));
    pool.return_object(9);
    assert_eq!((pool.idle_len(), pool.checked_out()), (1, 0));
    assert!(matches!(pool.begin_checkout(), Checkout::Reused(1)));
    assert!(matches!(pool.begin_checkout(), Checkout::Create));
    assert!(matches!(pool.begin_checkout(), Checkout::Exhausted));
    pool.release();
    assert_eq!(pool.checked_out(), 1);
    assert!(pool.settle_checkout::<TransportError>(Err(TransportError::ReadTimeout)).is_err());
    pool.release();
    assert_eq!(pool.checked_out(), 0);
}

#[test]
fn pool_with_known_bounds() {
    assert!(PoolConfig::default().is_valid());
    assert!(!PoolConfig::new(3, 4).is_valid());
    let pool = HttpClientPool::<u8>::new(PoolConfig::new(3, 0));
    assert_eq!(pool.config(), PoolConfig::new(3, 0));
}

#[test]
fn parse_retry_after_at_handles_seconds_and_http_date() {
    let now = UnixTime::from_secs(1_700_000_000);
    assert_eq!(
        parse_retry_after_at("120", now),
        Some(Duration::from_secs(120))
    );
    assert_eq!(
        parse_retry_after_at("  120  ", now),
        Some(Duration::from_secs(120))
    );
    assert_eq!(
        parse_retry_after_at("Tue, 14 Nov 2023 22:14:20 GMT", now),
        Some(Duration::from_secs(60))
    );
    assert_eq!(
        parse_retry_after_at("Thu, 01 Jan 1970 00:00:00 GMT", now),
        Some(Duration::ZERO)
    );
    assert_eq!(parse_retry_after_at("not-a-value", now), None);
}

#[test]
fn retry_after_counts_fractions_of_a_second() {
    let now = UnixTime::new(1_699_999_999, 250_000_000).unwrap();
    assert_eq!(
        parse_retry_after_at("Tue, 14 Nov 2023 22:13:20 GMT", now),
        Some(Duration::from_millis(750))
    );
    assert_eq!(
        wait_until_date(1_700_000_000, now),
        Duration::from_millis(750)
    );
    assert!(UnixTime::new(0, 1_000_000_000).is_none());
    let before_epoch = UnixTime::from_secs(-10);
    assert_eq!(
        parse_retry_after_at("Thu, 01 Jan 1970 00:00:05 GMT", before_epoch),
        Some(Duration::from_secs(15))
    );
}

#[test]
fn retry_after_numbers_are_digits_alone() {
    let now = UnixTime::from_secs(0);
    assert_eq!(parse_retry_after_at("+7", now), None);
    assert_eq!(parse_retry_after_at("+120", now), None);
    assert_eq!(parse_retry_after_at("007", now), Some(Duration::from_secs(7)));
    assert_eq!(parse_retry_after_at("-7", now), None);
    assert_eq!(parse_retry_after_at("+", now), None);
    assert_eq!(parse_retry_after_at("18446744073709551616", now), None);
    assert_eq!(
        parse_retry_after_at("\u{a0}\u{3000}7\t\n", now),
        Some(Duration::from_secs(7))
    );
    assert_eq!(parse_retry_after_at("1 2", now), None);
}

#[test]
fn raw_retry_after_headers_are_read_as_text() {
    let now = UnixTime::from_secs(0);
    assert_eq!(retry_after_header(&None, now), None);
    assert_eq!(
        retry_after_header(&Some(b"\t5 ".to_vec()), now),
        Some(Duration::from_secs(5))
    );
    assert_eq!(retry_after_header(&Some(vec![b'5', 0xa0]), now), None);
    assert_eq!(retry_after_header(&Some(vec![b'5', 0x7f]), now), None);
}

#[test]
fn sensitive_header_names_are_case_insensitive() {
    for name in [
        "Authorization",
        "AUTHORIZATION",
        "Proxy-Authorization",
        "Cookie",
        "Set-Cookie",
        "X-API-Key",
        "x-api-key",
        "X-Auth-Token",
        "Ok-Access-Passphrase",
        "X-Custom-Token",
        "x-my-secret",
        "user-password",
    ] {
        assert!(is_sensitive_header_name(name), "{name} is sensitive");
    }
    for name in ["Content-Type", "Accept", "User-Agent", "X-Request-Id"] {
        assert!(!is_sensitive_header_name(name), "{name} is not sensitive");
    }
}

#[test]
fn every_credential_header_is_sensitive() {
    for name in [
        "ok-access-key",
        "OK-ACCESS-SIGN",
        "ok-access-timestamp",
        "pre-apikey-post",
        "pre-api-key-post",
        "a-passphrase",
    ] {
        assert!(is_sensitive_header_name(name), "{name} is sensitive");
    }
    for name in ["", "cookies", "tok-en", "\u{212a}ey"] {
        assert!(!is_sensitive_header_name(name), "{name} is not sensitive");
    }
}

#[test]
fn mock_set_get_is_isolated_from_post() {
    let mut driver = MockHttpTransport::new();
    driver.set_get("https://api/resource", Bytes::from_static(b"get-body"));
    let post = HttpRequest {
        method: "POST".into(),
        url: "https://api/resource".into(),
        headers: Vec::new(),
        body: Some(Bytes::from_static(b"ignored")),
    };
    let error = driver
        .execute(post)
        .err()
        .expect("a GET response does not answer a POST");
    assert!(matches!(error, TransportError::ProtocolViolation(_)));

    let response = driver
        .execute(get_request("https://api/resource"))
        .expect("GET");
    assert_eq!(response.body, Bytes::from_static(b"get-body"));
}
