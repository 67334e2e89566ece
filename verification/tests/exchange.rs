//! Whole exchanges: requests as they go out, replies as they come in, and WebSocket
//! connections over streams in memory.

use bytes::Bytes;
use futures_util::{SinkExt, StreamExt};
use std::future::Future;
use std::time::Duration;
use tokio::io::DuplexStream;
use tokio_tungstenite::tungstenite::protocol::WebSocketConfig;
use tokio_tungstenite::tungstenite::{Error, Message};
use tokio_tungstenite::{
    accept_async, client_async_with_config, connect_async_with_config, WebSocketStream,
};
use transportx::{
    close_message, connect_outcome, enforce_frame_limit, header_names_fit, message_step, outgoing_frame,
    read_step, send_outcome, FrameStep, HttpRequest, HttpResponse, ReqwestHttpDriver,
    ResponseReader, TransportError, TungsteniteWsConnector, UnixTime, WsMessage,
};

fn run<F: Future>(future: F) -> F::Output {
    tokio::runtime::Builder::new_multi_thread()
        .worker_threads(2)
        .enable_all()
        .build()
        .expect("runtime")
        .block_on(future)
}

fn driver(response_limit: usize, request_limit: usize) -> ReqwestHttpDriver {
    ReqwestHttpDriver::with_limits(
        Some(Duration::from_secs(10)),
        response_limit,
        request_limit,
    )
    .expect("driver")
}

fn request(method: &str, url: &str, body: Option<&'static [u8]>) -> HttpRequest {
    HttpRequest {
        method: method.into(),
        url: url.into(),
        headers: vec![
            ("X-One".into(), "1".into()),
            ("X-Two".into(), "2".into()),
            ("X-One".into(), "3".into()),
        ],
        body: body.map(Bytes::from_static),
    }
}

fn now() -> UnixTime {
    UnixTime::from_secs(1_700_000_000)
}

fn too_large(error: TransportError) -> (&'static str, usize, usize) {
    match error {
        TransportError::PayloadTooLarge { kind, limit, got } => (kind, limit, got),
        other => panic!("unexpected: {other:?}"),
    }
}

// Requests

#[test]
fn prepared_requests_keep_every_part() {
    let prepared = driver(0, 0)
        .prepare(request("PATCH", "http://example.com/a?b=c", Some(b"body")))
        .expect("request");
    assert_eq!(prepared.method().as_str(), "PATCH");
    assert_eq!(prepared.url().as_str(), "http://example.com/a?b=c");
    let ones: Vec<&[u8]> = prepared
        .headers()
        .get_all("x-one")
        .iter()
        .map(|value| value.as_bytes())
        .collect();
    assert_eq!(ones, vec![&b"1"[..], &b"3"[..]]);
    assert_eq!(prepared.headers().get("x-two").unwrap().as_bytes(), b"2");
    assert_eq!(
        prepared.body().and_then(|body| body.as_bytes()),
        Some(&b"body"[..])
    );
    let bare = driver(0, 0)
        .prepare(request("GET", "http://example.com/", None))
        .expect("request");
    assert!(bare.body().is_none());
}

#[test]
fn request_bodies_over_the_limit_are_refused_first() {
    let limited = driver(0, 3);
    assert!(limited
        .prepare(request("GET", "http://example.com/", Some(b"123")))
        .is_ok());
    let error = limited
        .prepare(request("not a method", "nowhere", Some(b"1234")))
        .err()
        .unwrap();
    assert_eq!(too_large(error), ("request_body", 3, 4));
}

#[test]
fn bad_methods_urls_and_headers_are_protocol_violations() {
    let any = driver(0, 0);
    let error = any.prepare(request("GE T", "nowhere", None)).err().unwrap();
    assert_eq!(error.to_string(), "protocol violation: invalid HTTP method");
    let error = any.prepare(request("", "http://example.com/", None)).err().unwrap();
    assert_eq!(error.to_string(), "protocol violation: invalid HTTP method");
    let error = any.prepare(request("GET", "nowhere", None)).err().unwrap();
    assert!(matches!(error, TransportError::ProtocolViolation(_)));
    let mut bad = request("GET", "http://example.com/", None);
    bad.headers.push(("X-Bad".into(), "\n".into()));
    let error = any.prepare(bad).err().unwrap();
    assert!(matches!(error, TransportError::ProtocolViolation(_)));
}

#[test]
fn early_refusals_do_not_look_at_headers() {
    let limited = driver(0, 3);
    let many: Vec<(String, String)> = (0..30_000)
        .map(|i| (format!("x-{i}"), "v".to_string()))
        .collect();
    let mut big = request("not a method", "nowhere", Some(b"1234"));
    big.headers = many.clone();
    assert_eq!(
        too_large(limited.request_method(&big).err().unwrap()),
        ("request_body", 3, 4)
    );
    assert_eq!(
        too_large(limited.prepare(big).err().unwrap()),
        ("request_body", 3, 4)
    );
    let mut bad = request("not a method", "http://example.com/", Some(b"123"));
    bad.headers = many;
    let error = limited.prepare(bad).err().unwrap();
    assert_eq!(error.to_string(), "protocol violation: invalid HTTP method");
    let method = limited
        .request_method(&request("PATCH", "nowhere", Some(b"123")))
        .expect("method");
    assert_eq!(method.as_str(), "PATCH");
}

#[test]
fn repeated_header_names_are_not_counted() {
    let headers = |count: usize, distinct: bool| -> Vec<(String, String)> {
        (0..count)
            .map(|i| {
                let name = if distinct { format!("x-{i}") } else { format!("X-{}", i % 3) };
                (name, "v".to_string())
            })
            .collect()
    };
    assert!(header_names_fit(&Vec::new()));
    assert!(header_names_fit(&headers(6_552, true)));
    assert!(!header_names_fit(&headers(6_553, true)));
    let mut many = headers(8_000, false);
    many.push(("x-0".into(), "v".into()));
    assert!(header_names_fit(&many));
    let mut big = request("GET", "http://u:p@example.com/", None);
    big.headers = many;
    let prepared = driver(0, 0).prepare(big).expect("request");
    assert_eq!(prepared.headers().get_all("x-0").iter().count(), 2_668);
}

#[test]
fn methods_are_tokens() {
    let any = driver(0, 0);
    for byte in 0u8..128 {
        let c = char::from(byte);
        let token = c.is_ascii_alphanumeric() || "!#$%&'*+-.^_`|~".contains(c);
        for method in [format!("{c}"), format!("GE{c}"), format!("{c}-a-method-with-a-long-name")] {
            assert_eq!(
                any.prepare(request(&method, "http://example.com/", None)).is_ok(),
                token,
                "{method:?}"
            );
        }
    }
    assert!(any
        .prepare(request("m\u{e9}thode", "http://example.com/", None))
        .is_err());
}

// Replies

fn open(limit: usize, status: u16, length: Option<u64>) -> Result<ResponseReader, TransportError> {
    driver(limit, 0).open_response(status, &None, length, now())
}

fn read(limit: usize, chunks: &[&'static [u8]]) -> Result<HttpResponse, TransportError> {
    let mut reader = open(limit, 200, None)?;
    for chunk in chunks {
        reader = reader.push_chunk(&Bytes::from_static(chunk))?;
    }
    Ok(reader.finish())
}

#[test]
fn rate_limits_carry_the_wait() {
    let wait = |raw: Option<&[u8]>| {
        let raw = raw.map(|bytes| bytes.to_vec());
        match driver(1, 1).open_response(429, &raw, Some(99), now()) {
            Err(TransportError::RateLimited { retry_after }) => retry_after,
            _ => panic!("status 429 is a rate limit"),
        }
    };
    assert_eq!(wait(None), None);
    assert_eq!(wait(Some(b"7")), Some(Duration::from_secs(7)));
    assert_eq!(
        wait(Some(b"Tue, 14 Nov 2023 22:14:20 GMT")),
        Some(Duration::from_secs(60))
    );
    assert_eq!(wait(Some(b"soon")), None);
    assert_eq!(wait(Some(b"\xff")), None);
}

#[test]
fn other_statuses_are_responses() {
    for status in [200, 404, 428, 430, 500] {
        let reader = driver(0, 0)
            .open_response(status, &Some(b"7".to_vec()), None, now())
            .expect("reader");
        assert_eq!(reader.finish().status, status);
    }
}

#[test]
fn declared_lengths_are_checked_before_reading() {
    assert!(open(5, 200, Some(5)).is_ok());
    assert_eq!(
        too_large(open(5, 200, Some(6)).err().unwrap()),
        ("response_body", 5, 6)
    );
    assert_eq!(
        too_large(open(5, 200, Some(u64::MAX)).err().unwrap()),
        ("response_body", 5, usize::MAX)
    );
    assert!(open(0, 200, Some(u64::MAX)).is_ok());
}

#[test]
fn bodies_within_the_limit_are_whole() {
    let response = read(6, &[b"ab", b"", b"cdef"]).expect("response");
    assert_eq!(response.status, 200);
    assert_eq!(response.body.as_ref(), b"abcdef");
    assert_eq!(read(6, &[]).expect("response").body.len(), 0);
    assert_eq!(read(0, &[b"abc", b"def", b"g"]).expect("response").body.len(), 7);
}

#[test]
fn first_overflow_aborts_with_the_length_so_far() {
    assert_eq!(
        too_large(read(4, &[b"ab", b"cd", b"e", b"fghijk"]).err().unwrap()),
        ("response_body", 4, 5)
    );
    assert_eq!(
        too_large(read(1, &[b"abc"]).err().unwrap()),
        ("response_body", 1, 3)
    );
}

#[test]
fn readers_count_what_they_hold() {
    let reader = open(4, 200, None).expect("reader");
    assert_eq!(reader.len(), 0);
    let reader = reader.push_chunk(&Bytes::from_static(b"abc")).expect("chunk");
    assert_eq!(reader.len(), 3);
}

// WebSocket

#[test]
fn socket_config_bounds_frames_and_messages() {
    let config: WebSocketConfig =
        TungsteniteWsConnector::with_limits(Duration::from_secs(1), 9).socket_config();
    assert_eq!(config.max_frame_size, Some(9));
    assert_eq!(config.max_message_size, Some(9));
    let config = TungsteniteWsConnector::with_limits(Duration::from_secs(1), 0).socket_config();
    assert_eq!(config.max_frame_size, None);
    assert_eq!(config.max_message_size, None);
    let default = WebSocketConfig::default();
    assert_eq!(config.read_buffer_size, default.read_buffer_size);
    assert_eq!(config.write_buffer_size, default.write_buffer_size);
    assert_eq!(config.accept_unmasked_frames, default.accept_unmasked_frames);
    assert_eq!(default.read_buffer_size, 131_072);
    assert_eq!(default.write_buffer_size, 131_072);
    assert_eq!(default.max_write_buffer_size, usize::MAX);
    assert_eq!(default.max_message_size, Some(67_108_864));
    assert_eq!(default.max_frame_size, Some(16_777_216));
    assert!(!default.accept_unmasked_frames);
}

fn done(step: FrameStep) -> Result<Option<Bytes>, TransportError> {
    match step {
        FrameStep::Skip => panic!("the item is not skipped"),
        FrameStep::Done(result) => result,
    }
}

#[test]
fn messages_are_delivered_skipped_or_end_the_frames() {
    let text = done(read_step(0, Some(Ok(Message::Text("h\u{e9}".into())))));
    assert_eq!(text.unwrap().unwrap().as_ref(), "h\u{e9}".as_bytes());
    let data = done(read_step(3, Some(Ok(Message::Binary(Bytes::from_static(b"abc"))))));
    assert_eq!(data.unwrap().unwrap().as_ref(), b"abc");
    for control in [
        Message::Ping(Bytes::from_static(b"p")),
        Message::Pong(Bytes::from_static(b"p")),
    ] {
        assert!(matches!(read_step(1, Some(Ok(control))), FrameStep::Skip));
    }
    assert!(matches!(message_step(1, WsMessage::Frame), FrameStep::Skip));
    assert!(done(read_step(1, Some(Ok(Message::Close(None)))))
        .unwrap()
        .is_none());
    assert!(done(message_step(1, WsMessage::Close(Some((1000, "bye".into())))))
        .unwrap()
        .is_none());
    assert!(matches!(
        done(read_step(1, None)),
        Err(TransportError::ConnectionClosed { clean: false })
    ));
    assert!(matches!(
        done(read_step(1, Some(Err(Error::ConnectionClosed)))),
        Err(TransportError::ConnectionClosed { clean: true })
    ));
}

#[test]
fn frames_over_the_limit_are_refused_whole() {
    let error = done(read_step(2, Some(Ok(Message::Binary(Bytes::from_static(b"abc"))))));
    assert_eq!(too_large(error.unwrap_err()), ("ws_frame", 2, 3));
    let error = done(read_step(2, Some(Ok(Message::Text("\u{20ac}".into())))));
    assert_eq!(too_large(error.unwrap_err()), ("ws_frame", 2, 3));
    let error = enforce_frame_limit(2, Bytes::from_static(b"abc"));
    assert_eq!(too_large(error.unwrap_err()), ("ws_frame", 2, 3));
    let error = outgoing_frame(2, Bytes::from_static(b"abc"));
    assert_eq!(too_large(error.unwrap_err()), ("ws_frame", 2, 3));
    assert_eq!(
        enforce_frame_limit(0, Bytes::from_static(b"abc")).unwrap().as_ref(),
        b"abc"
    );
}

#[test]
fn outgoing_messages_are_binary_frames_and_bare_closes() {
    assert_eq!(
        outgoing_frame(3, Bytes::from_static(b"abc")).unwrap(),
        Message::Binary(Bytes::from_static(b"abc"))
    );
    assert_eq!(close_message(), Message::Close(None));
}

#[test]
fn connecting_and_sending_are_judged() {
    assert!(matches!(
        connect_outcome::<u8>(None),
        Err(TransportError::ConnectTimeout)
    ));
    assert!(matches!(
        connect_outcome::<u8>(Some(Err(Error::AlreadyClosed))),
        Err(TransportError::ConnectionClosed { clean: true })
    ));
    assert!(matches!(connect_outcome(Some(Ok(7u8))), Ok(7)));
    assert!(send_outcome(Ok(())).is_ok());
    assert!(matches!(
        send_outcome(Err(Error::AlreadyClosed)),
        Err(TransportError::ConnectionClosed { clean: true })
    ));
}

struct Connection {
    stream: WebSocketStream<DuplexStream>,
    max_frame_bytes: usize,
}

async fn connect(
    connector: &TungsteniteWsConnector,
    peer: DuplexStream,
) -> Result<Connection, TransportError> {
    let config = Some(connector.socket_config());
    let attempt = client_async_with_config("ws://peer/", peer, config);
    let outcome = tokio::time::timeout(connector.connect_timeout(), attempt).await;
    let (stream, _) = connect_outcome(outcome.ok())?;
    Ok(Connection {
        stream,
        max_frame_bytes: connector.max_frame_bytes(),
    })
}

async fn refused(connector: &TungsteniteWsConnector, url: &str) -> TransportError {
    let attempt = connect_async_with_config(url, Some(connector.socket_config()), false);
    let outcome = tokio::time::timeout(connector.connect_timeout(), attempt).await;
    match connect_outcome(outcome.ok()) {
        Ok(_) => panic!("{url} is refused"),
        Err(error) => error,
    }
}

impl Connection {
    async fn next_frame(&mut self) -> Result<Option<Bytes>, TransportError> {
        loop {
            let item = self.stream.next().await;
            match read_step(self.max_frame_bytes, item) {
                FrameStep::Skip => continue,
                FrameStep::Done(result) => return result,
            }
        }
    }

    async fn send_frame(&mut self, frame: Bytes) -> Result<(), TransportError> {
        let message = outgoing_frame(self.max_frame_bytes, frame)?;
        send_outcome(self.stream.send(message).await)
    }

    async fn close(&mut self) -> Result<(), TransportError> {
        send_outcome(self.stream.send(close_message()).await)
    }
}

/// A peer that sends a ping and a text, sends the first binary message back, and closes.
fn spawn_ws_peer() -> DuplexStream {
    let (near, far) = tokio::io::duplex(65_536);
    tokio::spawn(async move {
        let Ok(mut ws) = accept_async(far).await else {
            return;
        };
        let _ = ws.send(Message::Ping(Bytes::from_static(b"p"))).await;
        let _ = ws.send(Message::Text("greeting".into())).await;
        while let Some(message) = ws.next().await {
            match message {
                Ok(Message::Binary(payload)) => {
                    let _ = ws.send(Message::Binary(payload)).await;
                    let _ = ws.send(Message::Close(None)).await;
                    break;
                }
                Ok(Message::Close(_)) | Err(_) => break,
                Ok(_) => continue,
            }
        }
    });
    near
}

#[test]
fn ws_invalid_url_is_protocol_violation() {
    run(async {
        let error = refused(&TungsteniteWsConnector::new(), "not-a-url").await;
        assert!(matches!(error, TransportError::ProtocolViolation(_)));
    });
}

#[test]
fn ws_connector_connect_establishes_connection() {
    run(async {
        let connector = TungsteniteWsConnector::new();
        let mut connection = connect(&connector, spawn_ws_peer()).await.expect("connection");
        let _ = connection.close().await;

        let error = refused(&connector, "not-a-url").await;
        assert!(
            matches!(error, TransportError::ProtocolViolation(_)),
            "error: {error:?}"
        );
    });
}

#[test]
fn ws_connection_next_frame_skips_control_frames() {
    run(async {
        let mut connection = connect(&TungsteniteWsConnector::new(), spawn_ws_peer())
            .await
            .expect("connection");
        let first = connection
            .next_frame()
            .await
            .expect("first frame")
            .expect("an application frame");
        assert_eq!(first.as_ref(), b"greeting");
        let _ = connection.close().await;
    });
}

#[test]
fn ws_connection_send_frame_reaches_peer() {
    run(async {
        let mut connection = connect(&TungsteniteWsConnector::new(), spawn_ws_peer())
            .await
            .expect("connection");
        assert!(connection.next_frame().await.expect("frame").is_some());
        connection
            .send_frame(Bytes::from_static(b"echo-me"))
            .await
            .expect("send");
        let echoed = connection
            .next_frame()
            .await
            .expect("echo")
            .expect("echoed frame");
        assert_eq!(echoed.as_ref(), b"echo-me");
        assert!(connection.next_frame().await.expect("close").is_none());
    });
}

#[test]
fn ws_connection_bounds_frames_before_they_are_decoded() {
    run(async {
        let connector = TungsteniteWsConnector::with_limits(Duration::from_secs(5), 7);
        let mut connection = connect(&connector, spawn_ws_peer()).await.expect("connection");
        let error = connection.next_frame().await.err().expect("over the limit");
        assert_eq!(too_large(error), ("ws_message", 7, 8));
        let error = connection
            .send_frame(Bytes::from_static(b"12345678"))
            .await
            .err()
            .expect("over the limit");
        assert_eq!(too_large(error), ("ws_frame", 7, 8));
    });
}

#[test]
fn silent_peers_time_out() {
    run(async {
        let (near, _far) = tokio::io::duplex(64);
        let connector = TungsteniteWsConnector::with_limits(Duration::from_millis(20), 0);
        assert!(matches!(
            connect(&connector, near).await.err(),
            Some(TransportError::ConnectTimeout)
        ));
    });
}
