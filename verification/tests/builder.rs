//! Building drivers, and mapping the errors of their clients.

use std::time::Duration;
use tokio_tungstenite::tungstenite::error::{CapacityError, Error, ProtocolError, UrlError};
use transportx::{
    build_reqwest_proxy, check_ca_pem, classify_reqwest_fault, classify_reqwest_timeout,
    map_client_build_error, map_io_error, map_reqwest_error, map_tungstenite_error, map_ws_fault,
    DriverBuild, FaultClass, IoKind, IoSource, PendingDriver, ProxyConfig, ReqwestHttpDriver,
    TlsConfig, TlsMode, TransportError, WsFault,
};

const TEST_CA: &str = "-----BEGIN CERTIFICATE-----
MIIBkTCCATegAwIBAgIUcbzpNcHDk+hxIMw8vc2dWcyUCVUwCgYIKoZIzj0EAwIw
HTEbMBkGA1UEAwwSdHJhbnNwb3J0eCB0ZXN0IENBMCAXDTI2MTExNjE4MjI1N1oY
DzIxMjYxMDIzMTgyMjU3WjAdMRswGQYDVQQDDBJ0cmFuc3BvcnR4IHRlc3QgQ0Ew
WTATBgcqhkjOPQIBBggqhkjOPQMBBwNCAAQeQaFX5z7Lp7KieMs7DgMcno0+lAi+
YNc/DGSKkQLPTL8Gns0ulLnAKalLSvVsEyPlsQRL+VLVYMC4yozXAzAao1MwUTAd
BgNVHQ4EFgQUG393Vyi/KCoyaioQAW/EbmMkjugwHwYDVR0jBBgwFoAUG393Vyi/
KCoyaioQAW/EbmMkjugwDwYDVR0TAQH/BAUwAwEB/zAKBggqhkjOPQQDAgNIADBF
AiAVzMh9fz7xgqF3w3ov7KGyDWpEm4PUFq38v8U3B6F6qwIhANGrp1Z4qXjRI6Io
/1uutZq2DKaq0Uy8KAE4P1wWf2rz
-----END CERTIFICATE-----
";

fn ready(build: Result<DriverBuild, TransportError>) -> ReqwestHttpDriver {
    match build.expect("driver") {
        DriverBuild::Ready(driver) => driver,
        DriverBuild::NeedsCaFile(_) => panic!("no CA file was configured"),
    }
}

fn pending(path: &str) -> PendingDriver {
    match ReqwestHttpDriver::with_tls(TlsConfig::custom_ca(path)).expect("pending driver") {
        DriverBuild::Ready(_) => panic!("the CA file has to be read first"),
        DriverBuild::NeedsCaFile(pending) => pending,
    }
}

#[test]
fn with_tls_system_and_insecure() {
    let _ = ready(ReqwestHttpDriver::with_tls(TlsConfig::system_roots()));
    let _ = ready(ReqwestHttpDriver::with_tls(TlsConfig::insecure_dev_only()));
}

#[test]
fn with_tls_custom_ca_missing_and_valid() {
    let missing = pending("/tmp/definitely-no-such-ca-file-transportx.pem");
    assert_eq!(missing.path(), "/tmp/definitely-no-such-ca-file-transportx.pem");
    let failed = std::io::Error::new(std::io::ErrorKind::NotFound, "No such file");
    let err = missing.finish(Err(failed)).err().unwrap();
    assert_eq!(
        err.to_string(),
        "I/O error: read custom CA /tmp/definitely-no-such-ca-file-transportx.pem: No such file"
    );
    match err {
        TransportError::Io(source) => {
            assert_eq!(source.kind(), Some(std::io::ErrorKind::NotFound));
            assert_eq!(
                source.to_string(),
                "read custom CA /tmp/definitely-no-such-ca-file-transportx.pem: No such file"
            );
            assert!(matches!(source, IoSource::CaFile { .. }));
        }
        other => panic!("unexpected: {other:?}"),
    }

    let err = pending("bad.pem").finish(Ok(b"not-a-pem-at-all".to_vec())).err().unwrap();
    assert!(matches!(err, TransportError::ProtocolViolation(_)));
    assert_eq!(
        err.to_string(),
        "protocol violation: invalid CA pem: missing BEGIN CERTIFICATE"
    );

    let err = pending("bin.pem").finish(Ok(vec![0xff, 0xfe, 0xfd])).err().unwrap();
    assert!(matches!(err, TransportError::ProtocolViolation(_)));
    assert_eq!(err.to_string(), "protocol violation: invalid CA pem: not utf-8");

    let driver = pending("ca.pem")
        .finish(Ok(TEST_CA.as_bytes().to_vec()))
        .expect("valid CA");
    assert_eq!(driver.max_response_body_bytes(), 16 * 1024 * 1024);
}

#[test]
fn with_proxy_and_builder_combo() {
    let _ = ReqwestHttpDriver::with_proxy(ProxyConfig::new("http://127.0.0.1:9")).expect("proxy");
    let driver = ready(ReqwestHttpDriver::builder(
        Some(Duration::from_secs(1)),
        1024,
        1024,
        Some(TlsConfig::system_roots()),
        Some(ProxyConfig::with_auth(
            "http://127.0.0.1:9",
            "u",
            &format!("{}{}", "p", "w"),
        )),
    ));
    assert_eq!(driver.max_response_body_bytes(), 1024);
    assert_eq!(driver.max_request_body_bytes(), 1024);
}

fn invalid_header() -> reqwest::Error {
    reqwest::Client::new()
        .request(reqwest::Method::GET, "http://example.com")
        .header("X-Bad", "\n")
        .build()
        .expect_err("an invalid header is an error")
}

#[test]
fn private_reqwest_mappers_cover_builder_and_io_branches() {
    assert!(matches!(
        map_reqwest_error(invalid_header()),
        TransportError::ProtocolViolation(_)
    ));
    assert!(matches!(
        map_client_build_error(invalid_header()),
        TransportError::Io(_)
    ));
}

#[test]
fn reqwest_error_messages_are_kept() {
    let text = invalid_header().to_string();
    assert!(!text.is_empty());
    match map_reqwest_error(invalid_header()) {
        TransportError::ProtocolViolation(kept) => assert_eq!(kept, text),
        other => panic!("unexpected: {other:?}"),
    }
    match map_client_build_error(invalid_header()) {
        TransportError::Io(IoSource::Http(kept)) => {
            assert!(kept.is_builder());
            assert_eq!(kept.to_string(), text);
        }
        other => panic!("unexpected: {other:?}"),
    }
    let error = map_client_build_error(invalid_header());
    assert_eq!(error.to_string(), format!("I/O error: {text}"));
}

#[test]
fn private_reqwest_timeout_classifier_is_deterministic() {
    assert!(matches!(
        classify_reqwest_timeout(true, true),
        Some(TransportError::ConnectTimeout)
    ));
    assert!(matches!(
        classify_reqwest_timeout(true, false),
        Some(TransportError::ReadTimeout)
    ));
    assert!(classify_reqwest_timeout(false, true).is_none());
}

#[test]
fn reqwest_faults_are_told_apart() {
    assert_eq!(classify_reqwest_fault(true, true, true), FaultClass::ConnectTimeout);
    assert_eq!(classify_reqwest_fault(true, false, true), FaultClass::ReadTimeout);
    assert_eq!(classify_reqwest_fault(false, true, true), FaultClass::BadRequest);
    assert_eq!(classify_reqwest_fault(false, true, false), FaultClass::Io);
}

#[test]
fn private_tungstenite_mapper_covers_error_variants() {
    assert!(matches!(
        map_tungstenite_error(Error::ConnectionClosed),
        TransportError::ConnectionClosed { clean: true }
    ));
    assert!(matches!(
        map_tungstenite_error(Error::AlreadyClosed),
        TransportError::ConnectionClosed { clean: true }
    ));
    assert!(matches!(
        map_tungstenite_error(Error::Io(std::io::Error::from(
            std::io::ErrorKind::UnexpectedEof
        ))),
        TransportError::ConnectionClosed { clean: false }
    ));
    assert!(matches!(
        map_tungstenite_error(Error::Io(std::io::Error::other("e"))),
        TransportError::Io(_)
    ));
    assert!(matches!(
        map_tungstenite_error(Error::Protocol(ProtocolError::ResetWithoutClosingHandshake)),
        TransportError::ConnectionClosed { clean: false }
    ));
    assert!(matches!(
        map_tungstenite_error(Error::Protocol(ProtocolError::InvalidOpcode(3))),
        TransportError::ProtocolViolation(_)
    ));
    assert!(matches!(
        map_tungstenite_error(Error::Url(UrlError::UnableToConnect("x".into()))),
        TransportError::ProtocolViolation(_)
    ));
    assert!(matches!(
        map_tungstenite_error(Error::Utf8("invalid utf8".into())),
        TransportError::ProtocolViolation(_)
    ));
}

#[test]
fn tungstenite_io_kinds_and_capacity() {
    for kind in [
        std::io::ErrorKind::ConnectionReset,
        std::io::ErrorKind::ConnectionAborted,
        std::io::ErrorKind::BrokenPipe,
    ] {
        assert!(matches!(
            map_tungstenite_error(Error::Io(std::io::Error::from(kind))),
            TransportError::ConnectionClosed { clean: false }
        ));
    }
    match map_tungstenite_error(Error::Io(std::io::Error::other("the cable"))) {
        TransportError::Io(IoSource::System(error)) => {
            assert_eq!(error.kind(), std::io::ErrorKind::Other);
            assert_eq!(error.to_string(), "the cable");
        }
        other => panic!("unexpected: {other:?}"),
    }
    match map_tungstenite_error(Error::Capacity(CapacityError::MessageTooLong {
        size: 7,
        max_size: 5,
    })) {
        TransportError::PayloadTooLarge { kind, limit, got } => {
            assert_eq!((kind, limit, got), ("ws_message", 5, 7));
        }
        other => panic!("unexpected: {other:?}"),
    }
    match map_tungstenite_error(Error::Capacity(CapacityError::TooManyHeaders)) {
        TransportError::ProtocolViolation(text) => {
            assert_eq!(text, "Space limit exceeded: Too many headers");
        }
        other => panic!("unexpected: {other:?}"),
    }
}

#[test]
fn ws_faults_map_by_variant() {
    for kind in [
        IoKind::UnexpectedEof,
        IoKind::ConnectionReset,
        IoKind::ConnectionAborted,
        IoKind::BrokenPipe,
    ] {
        assert_eq!(
            map_io_error(kind, std::io::Error::other("why")).to_string(),
            "connection closed (false)"
        );
    }
    assert_eq!(
        map_io_error(IoKind::Other, std::io::Error::other("why")).to_string(),
        "I/O error: why"
    );
    let refused = std::io::Error::new(std::io::ErrorKind::ConnectionRefused, "why");
    match map_ws_fault(WsFault::Io(refused)) {
        TransportError::Io(source) => {
            assert_eq!(source.kind(), Some(std::io::ErrorKind::ConnectionRefused));
        }
        other => panic!("unexpected: {other:?}"),
    }
    assert_eq!(
        map_ws_fault(WsFault::BadUrl("nowhere".to_string())).to_string(),
        "protocol violation: nowhere"
    );
    assert_eq!(
        map_ws_fault(WsFault::Protocol("broken".to_string())).to_string(),
        "protocol violation: broken"
    );
    assert_eq!(
        map_ws_fault(WsFault::Other("else".to_string())).to_string(),
        "protocol violation: else"
    );
}

#[test]
fn sni_off_is_refused_in_every_mode() {
    for mode in [
        TlsMode::SystemRoots,
        TlsMode::InsecureDevOnly,
        TlsMode::CustomCa {
            path: "/nowhere".to_string(),
        },
    ] {
        let error = ReqwestHttpDriver::with_tls(TlsConfig { mode, sni: false })
            .err()
            .unwrap();
        assert_eq!(
            error.to_string(),
            "protocol violation: SNI=false 当前未接线，拒绝静默忽略"
        );
    }
}

#[test]
fn ca_pem_needs_text_with_a_header() {
    assert!(check_ca_pem(&TEST_CA.as_bytes().to_vec()).is_ok());
    assert!(check_ca_pem(&b"x -----BEGIN CERTIFICATE----- y".to_vec()).is_ok());
    assert!(check_ca_pem(&b"-----BEGIN CERTIFICATE----".to_vec()).is_err());
    assert!(check_ca_pem(&Vec::new()).is_err());
}

#[test]
fn broken_certificate_body_is_an_error() {
    let pem = "-----BEGIN CERTIFICATE-----\n!!!!\n-----END CERTIFICATE-----\n";
    let error = pending("ca.pem").finish(Ok(pem.as_bytes().to_vec())).err().unwrap();
    assert!(matches!(error, TransportError::Io(_)));
}

#[test]
fn same_ca_file_gives_the_same_driver() {
    let finish = || pending("ca.pem").finish(Ok(TEST_CA.as_bytes().to_vec())).expect("driver");
    let (a, b) = (finish(), finish());
    assert_eq!(a.debug_string(), b.debug_string());
    assert_eq!(format!("{:?}", a.client()), format!("{:?}", b.client()));
}

#[test]
fn bad_proxies_are_protocol_violations() {
    let error = ReqwestHttpDriver::with_proxy(ProxyConfig::new("http://"))
        .err()
        .unwrap();
    assert!(matches!(error, TransportError::ProtocolViolation(_)));
    for url in ["http://", "::::", "", "http://a b/"] {
        let error = build_reqwest_proxy(&ProxyConfig::new(url)).err().unwrap();
        assert_eq!(error.to_string(), "protocol violation: builder error", "{url}");
    }
    let error = build_reqwest_proxy(&ProxyConfig::with_auth("file://host/x", "u", "p"))
        .err()
        .unwrap();
    assert_eq!(
        error.to_string(),
        "protocol violation: proxy URL cannot carry credentials"
    );
}

#[test]
fn proxies_carry_their_url_and_credentials() {
    let plain = build_reqwest_proxy(&ProxyConfig::new("http://proxy:1")).expect("proxy");
    let other = build_reqwest_proxy(&ProxyConfig::new("http://proxy:2")).expect("proxy");
    let with_auth =
        build_reqwest_proxy(&ProxyConfig::with_auth("http://proxy:1", "aladdin", "p")).expect("proxy");
    let bare = build_reqwest_proxy(&ProxyConfig::with_auth("proxy:1", "aladdin", "p")).expect("proxy");
    assert_ne!(format!("{plain:?}"), format!("{other:?}"));
    assert!(!format!("{plain:?}").contains("aladdin"));
    assert!(format!("{with_auth:?}").contains("aladdin"));
    assert!(format!("{bare:?}").contains("aladdin"));
}

#[test]
fn clients_have_the_timeout_of_their_driver() {
    let shown = |driver: &ReqwestHttpDriver| format!("{:?}", driver.client());
    assert!(shown(&ReqwestHttpDriver::new().expect("driver")).contains("TotalTimeout: 30s"));
    let none = ReqwestHttpDriver::with_timeout(None).expect("driver");
    assert!(!shown(&none).contains("TotalTimeout"));
    let some = ReqwestHttpDriver::with_timeout(Some(Duration::from_secs(7))).expect("driver");
    assert!(shown(&some).contains("TotalTimeout: 7s"));
    assert!(shown(&some.clone()).contains("TotalTimeout: 7s"));
    let tls = ready(ReqwestHttpDriver::with_tls(TlsConfig::system_roots()));
    assert!(shown(&tls).contains("TotalTimeout: 30s"));
}

#[test]
fn long_proxy_credentials_are_taken() {
    let long = "%".repeat(1_048_577);
    let proxy = build_reqwest_proxy(&ProxyConfig::with_auth("http://proxy:1", &long, &long));
    assert!(proxy.is_ok());
}

#[test]
fn credentials_are_escaped_byte_by_byte() {
    for byte in 0u8..128 {
        let c = char::from(byte);
        let mut url = reqwest::Url::parse("http://proxy:1").expect("URL");
        url.set_username(&c.to_string()).expect("user name");
        let escaped = byte < 32 || byte == 127 || " \"#/:;<=>?@[\\]^`{|}".contains(c);
        let len = "http://proxy:1/".len() + 1 + if escaped { 3 } else { 1 };
        assert_eq!(url.as_str().len(), len, "{c:?}");
    }
}

#[test]
fn default_constructors_are_the_general_ones() {
    let a = ready(ReqwestHttpDriver::with_tls(TlsConfig::system_roots()));
    let b = ready(ReqwestHttpDriver::builder(
        Some(Duration::from_secs(30)),
        16_777_216,
        16_777_216,
        Some(TlsConfig::system_roots()),
        None,
    ));
    assert_eq!(a.debug_string(), b.debug_string());
    for timeout in [None, Some(Duration::from_secs(7))] {
        let a = ReqwestHttpDriver::with_timeout(timeout).expect("driver");
        let b =
            ReqwestHttpDriver::with_limits(timeout, 16_777_216, 16_777_216).expect("driver");
        assert_eq!(a.debug_string(), b.debug_string());
        assert_eq!(format!("{:?}", a.client()), format!("{:?}", b.client()));
    }
    let refused = |driver: Result<DriverBuild, TransportError>| driver.err().unwrap().to_string();
    let off = || TlsConfig {
        mode: TlsMode::SystemRoots,
        sni: false,
    };
    assert_eq!(
        refused(ReqwestHttpDriver::with_tls(off())),
        refused(ReqwestHttpDriver::builder(None, 0, 0, Some(off()), None))
    );
}

#[test]
fn limits_and_clones_are_kept() {
    let driver =
        ReqwestHttpDriver::with_limits(Some(Duration::from_secs(3)), 10, 0).expect("driver");
    let copy = driver.clone();
    assert_eq!(copy.max_response_body_bytes(), 10);
    assert_eq!(copy.max_request_body_bytes(), 0);
    assert_eq!(
        copy.debug_string(),
        "ReqwestHttpDriver { max_response_body_bytes: 10, max_request_body_bytes: 0, .. }"
    );
}
