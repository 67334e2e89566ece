//! The error type of the transport boundary.

use crate::client::error_message;
use crate::io::io_message;
use crate::text::push_decimal;
use crate::time::duration_debug;
use std::time::Duration;
use vstd::prelude::*;
use vstd::string::StringExecFns;

verus! {

/// What an I/O failure came from. The error itself is kept.
#[derive(Debug)]
pub enum IoSource {
    /// The HTTP client.
    Http(reqwest::Error),
    /// The operating system.
    System(std::io::Error),
    /// The file with the certificates of a driver could not be read.
    CaFile {
        /// The path of the file.
        path: String,
        /// Why it could not be read.
        error: std::io::Error,
    },
}

/// The same, with the path as mathematical values.
pub enum SourceView {
    Http(reqwest::Error),
    System(std::io::Error),
    CaFile { path: Seq<char>, error: std::io::Error },
}

impl View for IoSource {
    type V = SourceView;

    open spec fn view(&self) -> SourceView {
        match *self {
            IoSource::Http(error) => SourceView::Http(error),
            IoSource::System(error) => SourceView::System(error),
            IoSource::CaFile { path, error } => SourceView::CaFile { path: path@, error },
        }
    }
}

/// The kind of the I/O error that a failure came from, where it came from one.
pub open spec fn source_kind(v: SourceView) -> Option<std::io::ErrorKind> {
    match v {
        SourceView::Http(_) => None,
        SourceView::System(error) => Some(crate::io::error_kind(error)),
        SourceView::CaFile { error, .. } => Some(crate::io::error_kind(error)),
    }
}

/// The message of an I/O failure, given that of the I/O error that it came from. An error of
/// the client has its own.
pub open spec fn source_text(v: SourceView, io_message: Seq<char>) -> Seq<char> {
    match v {
        SourceView::Http(error) => crate::client::fault_of(error).text,
        SourceView::System(_) => io_message,
        SourceView::CaFile { path, .. } => "read custom CA "@ + path + ": "@ + io_message,
    }
}

impl IoSource {
    /// The kind of the I/O error that the failure came from; none for an error of the client.
    pub fn kind(&self) -> (r: Option<std::io::ErrorKind>)
        ensures
            r == source_kind(self@),
    {
        match self {
            IoSource::Http(_) => None,
            IoSource::System(error) => Some(error.kind()),
            IoSource::CaFile { error, .. } => Some(error.kind()),
        }
    }

    /// The message of the failure, given that of the I/O error that it came from.
    pub fn text_with(&self, io_message: &str) -> (r: String)
        ensures
            r@ == source_text(self@, io_message@),
    {
        match self {
            IoSource::Http(error) => error_message(error),
            IoSource::System(_) => io_message.to_owned(),
            IoSource::CaFile { path, .. } => {
                let mut out: String = "read custom CA ".to_owned();
                out.append(path.as_str());
                out.append(": ");
                out.append(io_message);
                out
            },
        }
    }

    /// The message of the failure. The operating system may word what an I/O error adds.
    pub fn to_string(&self) -> (r: String)
        ensures
            exists|m: Seq<char>| r@ == #[trigger] source_text(self@, m),
    {
        let message: String = match self {
            IoSource::Http(_) => String::new(),
            IoSource::System(error) => io_message(error),
            IoSource::CaFile { error, .. } => io_message(error),
        };
        self.text_with(message.as_str())
    }
}

/// A transport failure, with enough of its meaning kept for a reconnect policy to decide.
#[derive(Debug)]
pub enum TransportError {
    /// The TCP or TLS handshake timed out.
    ConnectTimeout,
    /// Reading a response or a frame timed out.
    ReadTimeout,
    /// The connection is closed.
    ConnectionClosed {
        /// Whether the closing handshake of the protocol was completed.
        clean: bool,
    },
    /// The server answered HTTP 429.
    RateLimited {
        /// How long the server asks to wait, from `Retry-After`.
        retry_after: Option<Duration>,
    },
    /// A request, response or frame is over its limit.
    PayloadTooLarge {
        /// What was too large: `request_body`, `response_body`, `ws_frame` or `ws_message`.
        kind: &'static str,
        /// The configured limit, in bytes.
        limit: usize,
        /// The size that was met, in bytes.
        got: usize,
    },
    /// Every slot of a client pool is checked out.
    PoolExhausted {
        /// The number of slots of the pool.
        limit: usize,
    },
    /// A protocol, method, URL or configuration that cannot work.
    ProtocolViolation(String),
    /// The underlying I/O or the construction of a client failed.
    Io(IoSource),
}

/// What a [`TransportError`] says, as mathematical values.
pub enum ErrorView {
    ConnectTimeout,
    ReadTimeout,
    ConnectionClosed { clean: bool },
    /// The wait in nanoseconds.
    RateLimited { retry_after: Option<nat> },
    PayloadTooLarge { kind: Seq<char>, limit: nat, got: nat },
    PoolExhausted { limit: nat },
    ProtocolViolation(Seq<char>),
    Io(SourceView),
}

impl View for TransportError {
    type V = ErrorView;

    open spec fn view(&self) -> ErrorView {
        match *self {
            TransportError::ConnectTimeout => ErrorView::ConnectTimeout,
            TransportError::ReadTimeout => ErrorView::ReadTimeout,
            TransportError::ConnectionClosed { clean } => ErrorView::ConnectionClosed { clean },
            TransportError::RateLimited { retry_after } => ErrorView::RateLimited {
                retry_after: crate::time::span_nanos(retry_after),
            },
            TransportError::PayloadTooLarge { kind, limit, got } => ErrorView::PayloadTooLarge {
                kind: kind@,
                limit: limit as nat,
                got: got as nat,
            },
            TransportError::PoolExhausted { limit } => ErrorView::PoolExhausted {
                limit: limit as nat,
            },
            TransportError::ProtocolViolation(text) => ErrorView::ProtocolViolation(text@),
            TransportError::Io(source) => ErrorView::Io(source@),
        }
    }
}

/// The text that an optional wait is shown as.
pub open spec fn wait_text(wait: Option<nat>) -> Seq<char> {
    match wait {
        Some(nanos) => "Some("@ + crate::time::duration_text(nanos) + ")"@,
        None => "None"@,
    }
}

/// The message of an error, given that of the I/O error that it may have come from.
pub open spec fn error_text(e: ErrorView, io_message: Seq<char>) -> Seq<char> {
    match e {
        ErrorView::ConnectTimeout => "connect timeout"@,
        ErrorView::ReadTimeout => "read timeout"@,
        ErrorView::ConnectionClosed { clean } => if clean {
            "connection closed (true)"@
        } else {
            "connection closed (false)"@
        },
        ErrorView::RateLimited { retry_after } => "rate limited"@ + wait_text(retry_after),
        ErrorView::PayloadTooLarge { kind, limit, got } => "载荷过大: "@ + kind + " 上限 "@
            + crate::text::decimal(limit) + " 字节，实际 "@ + crate::text::decimal(got) + " 字节"@,
        ErrorView::PoolExhausted { limit } => "客户端池耗尽: 上限 "@ + crate::text::decimal(limit),
        ErrorView::ProtocolViolation(text) => "protocol violation: "@ + text,
        ErrorView::Io(source) => "I/O error: "@ + source_text(source, io_message),
    }
}

/// Whether the same operation may succeed when it is tried again.
pub open spec fn retryable(e: ErrorView) -> bool {
    !(e is PayloadTooLarge || e is ProtocolViolation)
}

impl TransportError {
    /// The message of the error. Where it came from an I/O error, the operating system may
    /// word what that adds.
    pub fn to_string(&self) -> (r: String)
        ensures
            exists|m: Seq<char>| r@ == #[trigger] error_text(self@, m),
            !(self@ is Io) ==> r@ == error_text(self@, Seq::empty()),
    {
        let message: String = match self {
            TransportError::Io(IoSource::System(error)) => io_message(error),
            TransportError::Io(IoSource::CaFile { error, .. }) => io_message(error),
            _ => String::new(),
        };
        self.text_with(message.as_str())
    }

    /// The message of the error, given that of the I/O error that it may have come from.
    pub fn text_with(&self, io_message: &str) -> (r: String)
        ensures
            r@ == error_text(self@, io_message@),
    {
        let mut out: String = String::new();
        match self {
            TransportError::ConnectTimeout => out.append("connect timeout"),
            TransportError::ReadTimeout => out.append("read timeout"),
            TransportError::ConnectionClosed { clean } => {
                if *clean {
                    out.append("connection closed (true)");
                } else {
                    out.append("connection closed (false)");
                }
            },
            TransportError::RateLimited { retry_after } => {
                out.append("rate limited");
                match retry_after {
                    Some(wait) => {
                        out.append("Some(");
                        let shown: String = duration_debug(*wait);
                        out.append(shown.as_str());
                        out.append(")");
                    },
                    None => out.append("None"),
                }
            },
            TransportError::PayloadTooLarge { kind, limit, got } => {
                out.append("载荷过大: ");
                out.append(kind);
                out.append(" 上限 ");
                push_decimal(&mut out, *limit as u64);
                out.append(" 字节，实际 ");
                push_decimal(&mut out, *got as u64);
                out.append(" 字节");
            },
            TransportError::PoolExhausted { limit } => {
                out.append("客户端池耗尽: 上限 ");
                push_decimal(&mut out, *limit as u64);
            },
            TransportError::ProtocolViolation(text) => {
                out.append("protocol violation: ");
                out.append(text.as_str());
            },
            TransportError::Io(source) => {
                let text: String = source.text_with(io_message);
                out.append("I/O error: ");
                out.append(text.as_str());
            },
        }
        assert(out@ =~= error_text(self@, io_message@));
        out
    }

    /// Whether the failure is a passing one. A payload over its limit and a protocol
    /// violation are permanent; every other failure may pass.
    pub fn is_retryable(&self) -> (r: bool)
        ensures
            r == retryable(self@),
    {
        match self {
            TransportError::PayloadTooLarge { .. } => false,
            TransportError::ProtocolViolation(_) => false,
            _ => true,
        }
    }
}

// ---------------------------------------------------------------------------
// Laws
// ---------------------------------------------------------------------------

/// An error is told by its variant and by every value that it carries.
pub proof fn law_errors_keep_what_they_carry(e: TransportError)
    ensures
        match e {
            TransportError::ConnectTimeout => e@ is ConnectTimeout,
            TransportError::ReadTimeout => e@ is ReadTimeout,
            TransportError::ConnectionClosed { clean } => e@ is ConnectionClosed && e@->clean
                == clean,
            TransportError::RateLimited { retry_after } => e@ matches ErrorView::RateLimited {
                retry_after: wait,
            } && match retry_after {
                Some(d) => wait == Some(crate::time::duration_nanos(d)),
                None => wait is None,
            },
            TransportError::PayloadTooLarge { kind, limit, got } => {
                &&& e@ is PayloadTooLarge
                &&& e@->kind == kind@
                &&& e@->PayloadTooLarge_limit == limit
                &&& e@->got == got
            },
            TransportError::PoolExhausted { limit } => e@ is PoolExhausted
                && e@->PoolExhausted_limit == limit,
            TransportError::ProtocolViolation(text) => e@ == ErrorView::ProtocolViolation(text@),
            TransportError::Io(IoSource::Http(error)) => e@ == ErrorView::Io(
                SourceView::Http(error),
            ),
            TransportError::Io(IoSource::System(error)) => e@ == ErrorView::Io(
                SourceView::System(error),
            ),
            TransportError::Io(IoSource::CaFile { path, error }) => e@ == ErrorView::Io(
                SourceView::CaFile { path: path@, error },
            ),
        },
{
}

/// The message of an error says what it is and every value that it carries.
pub proof fn law_messages_say_what_happened(
    clean: bool,
    wait: Option<nat>,
    kind: Seq<char>,
    limit: nat,
    got: nat,
    text: Seq<char>,
    http: reqwest::Error,
    system: std::io::Error,
    path: Seq<char>,
    m: Seq<char>,
)
    ensures
        error_text(ErrorView::ConnectTimeout, m) == "connect timeout"@,
        error_text(ErrorView::ReadTimeout, m) == "read timeout"@,
        error_text(ErrorView::ConnectionClosed { clean }, m) == if clean {
            "connection closed (true)"@
        } else {
            "connection closed (false)"@
        },
        error_text(ErrorView::RateLimited { retry_after: wait }, m) == match wait {
            Some(n) => "rate limited"@ + ("Some("@ + crate::time::duration_text(n) + ")"@),
            None => "rate limited"@ + "None"@,
        },
        error_text(ErrorView::PayloadTooLarge { kind, limit, got }, m) == "载荷过大: "@ + kind
            + " 上限 "@ + crate::text::decimal(limit) + " 字节，实际 "@ + crate::text::decimal(got)
            + " 字节"@,
        error_text(ErrorView::PoolExhausted { limit }, m) == "客户端池耗尽: 上限 "@
            + crate::text::decimal(limit),
        error_text(ErrorView::ProtocolViolation(text), m) == "protocol violation: "@ + text,
        error_text(ErrorView::Io(SourceView::Http(http)), m) == "I/O error: "@
            + crate::client::fault_of(http).text,
        error_text(ErrorView::Io(SourceView::System(system)), m) == "I/O error: "@ + m,
        error_text(ErrorView::Io(SourceView::CaFile { path, error: system }), m)
            == "I/O error: "@ + ("read custom CA "@ + path + ": "@ + m),
{
}

/// The kind of an I/O failure is that of the I/O error that it came from.
pub proof fn law_io_failures_keep_their_kind(
    http: reqwest::Error,
    system: std::io::Error,
    path: Seq<char>,
)
    ensures
        source_kind(SourceView::Http(http)) is None,
        source_kind(SourceView::System(system)) == Some(crate::io::error_kind(system)),
        source_kind(SourceView::CaFile { path, error: system }) == Some(
            crate::io::error_kind(system),
        ),
{
}

/// Trying again may help after every failure but two: a payload over its limit, and a
/// violation of the protocol.
pub proof fn law_only_size_and_protocol_are_permanent(e: TransportError)
    ensures
        retryable(e@) <==> match e {
            TransportError::PayloadTooLarge { .. } => false,
            TransportError::ProtocolViolation(_) => false,
            _ => true,
        },
{
}

} // verus!
