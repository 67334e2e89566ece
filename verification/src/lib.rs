//! # transportx
//!
//! A driver-independent transport boundary for HTTP and WebSocket clients, and the logic of
//! two drivers behind it: one on `reqwest`, one on `tokio-tungstenite`.
//!
//! The library carries transport and no business contract. It does not retry, break circuits
//! or schedule. It does no I/O either: each driver is a set of verified decisions between the
//! calls that do, so every `async` step of a client is a plain call of the outside crate with
//! a verified function before and behind it.
//!
//! - [`HttpRequest`] and [`HttpResponse`] cross the boundary. What may be shown of them is
//!   redacted: the origin of the URL, sensitive headers masked, the length of the body.
//! - [`ReqwestHttpDriver`] builds its client (30 seconds, 16 MiB each way unless told
//!   otherwise), prepares requests and reads replies chunk by chunk.
//! - [`TungsteniteWsConnector`] bounds frames (30 seconds to connect, 4 MiB a frame), and
//!   [`read_step`] says what each incoming message makes of `next_frame`.
//! - [`HttpClientPool`] is a bounded pool; [`MockHttpTransport`] answers from memory.
//! - Everything that is over a limit is refused whole with
//!   [`TransportError::PayloadTooLarge`], and never cut short.
#![allow(unused_imports)]

pub mod client;
pub mod error;
pub mod exchange;
pub mod http;
pub mod io;
pub mod message;
pub mod mock;
pub mod payload;
pub mod pool;
pub mod proxy;
pub mod redact;
pub mod retry_after;
pub mod socket;
pub mod text;
pub mod time;
pub mod tls;
pub mod url;
pub mod ws;

pub use client::MAX_HEADER_NAMES;
pub use error::{IoSource, TransportError};
pub use exchange::{header_names_fit, ResponseReader};
pub use http::{
    check_ca_pem, classify_reqwest_fault, classify_reqwest_timeout, default_request_timeout,
    map_client_build_error, map_reqwest_error, DriverBuild, FaultClass, PendingDriver,
    ReqwestHttpDriver,
};
pub use message::{HttpRequest, HttpResponse};
pub use mock::{reply_with, route_method, MockHttpTransport, MockMethod, ResponseTable};
pub use pool::{Checkout, HttpClientPool, PoolConfig, DEFAULT_MAX_IDLE, DEFAULT_MAX_POOL_SIZE};
pub use proxy::{build_reqwest_proxy, ProxyAuth, ProxyConfig};
pub use redact::{body_text, is_sensitive_header_name, redacted_headers};
pub use retry_after::{parse_retry_after_at, retry_after_header, wait_until_date};
pub use io::IoKind;
pub use socket::{WsFault, WsMessage};
pub use time::UnixTime;
pub use tls::{TlsConfig, TlsMode};
pub use url::{origin_shown, redacted_url, url_origin};
pub use ws::{
    close_message, connect_outcome, default_ws_connect_timeout, enforce_frame_limit, map_io_error,
    map_tungstenite_error, map_ws_fault, message_step, outgoing_frame, read_step, send_outcome,
    FrameStep, TungsteniteWsConnector,
};

use vstd::prelude::*;

verus! {

/// Default total timeout of an HTTP request, in seconds.
pub const DEFAULT_REQUEST_TIMEOUT_SECS: u64 = 30;

/// Default cap on an HTTP response body (16 MiB).
pub const DEFAULT_MAX_RESPONSE_BODY_BYTES: usize = 16 * 1024 * 1024;

/// Default cap on an HTTP request body (16 MiB).
pub const DEFAULT_MAX_REQUEST_BODY_BYTES: usize = 16 * 1024 * 1024;

/// Default time allowed for opening a WebSocket, in seconds.
pub const DEFAULT_WS_CONNECT_TIMEOUT_SECS: u64 = 30;

/// Default cap on a WebSocket frame (4 MiB).
pub const DEFAULT_MAX_WS_FRAME_BYTES: usize = 4 * 1024 * 1024;

} // verus!
