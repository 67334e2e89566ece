//! The parts of `tungstenite` that the WebSocket driver is built from.
//!
//! Its types are opaque. What a configuration holds, what a message carries and what an error
//! is are named here, and read into plain values of this library.

use bytes::Bytes;
use tokio_tungstenite::tungstenite::error::{CapacityError, ProtocolError};
use tokio_tungstenite::tungstenite::protocol::WebSocketConfig;
use tokio_tungstenite::tungstenite::{Error, Message};
use vstd::prelude::*;

verus! {

// ---------------------------------------------------------------------------
// Configuration
// ---------------------------------------------------------------------------

/// `WebSocketConfig`, known by its settings.
#[verifier::external_type_specification]
#[verifier::external_body]
pub struct ExWebSocketConfig(WebSocketConfig);

/// The settings of a WebSocket.
pub struct SocketSettings {
    pub read_buffer_size: nat,
    pub write_buffer_size: nat,
    pub max_write_buffer_size: nat,
    /// The limit on an incoming message; none where there is no limit.
    pub max_message_size: Option<usize>,
    /// The limit on an incoming frame; none where there is no limit.
    pub max_frame_size: Option<usize>,
    pub accept_unmasked_frames: bool,
}

/// The settings that nothing was changed in.
pub open spec fn default_socket_settings() -> SocketSettings {
    SocketSettings {
        read_buffer_size: 131_072,
        write_buffer_size: 131_072,
        max_write_buffer_size: usize::MAX as nat,
        max_message_size: Some(67_108_864),
        max_frame_size: Some(16_777_216),
        accept_unmasked_frames: false,
    }
}

/// The settings that a configuration holds.
pub uninterp spec fn socket_settings(c: WebSocketConfig) -> SocketSettings;

/// `WebSocketConfig::default`: the default settings.
pub assume_specification[ <WebSocketConfig as Default>::default ]() -> (r: WebSocketConfig)
    ensures
        socket_settings(r) == default_socket_settings(),
;

/// `WebSocketConfig::max_frame_size`: sets the limit on incoming frames.
pub assume_specification[ WebSocketConfig::max_frame_size ](
    config: WebSocketConfig,
    max_frame_size: Option<usize>,
) -> (r: WebSocketConfig)
    ensures
        socket_settings(r) == (SocketSettings { max_frame_size, ..socket_settings(config) }),
;

/// `WebSocketConfig::max_message_size`: sets the limit on incoming messages.
pub assume_specification[ WebSocketConfig::max_message_size ](
    config: WebSocketConfig,
    max_message_size: Option<usize>,
) -> (r: WebSocketConfig)
    ensures
        socket_settings(r) == (SocketSettings { max_message_size, ..socket_settings(config) }),
;

// ---------------------------------------------------------------------------
// Errors
// ---------------------------------------------------------------------------

/// An error of the WebSocket, as far as the driver tells errors apart.
pub enum WsFault {
    /// The closing handshake is complete.
    ConnectionClosed,
    /// The connection was closed before.
    AlreadyClosed,
    /// An I/O error.
    Io(std::io::Error),
    /// The peer went away without a closing handshake.
    ResetWithoutClosingHandshake,
    /// Another protocol error, with its message.
    Protocol(String),
    /// A URL that cannot be used, with its message.
    BadUrl(String),
    /// An incoming message or frame over its limit.
    MessageTooLong {
        /// The size of the message.
        size: usize,
        /// The limit.
        max_size: usize,
    },
    /// Any other error, with its message.
    Other(String),
}

/// The same as mathematical values.
pub enum WsFaultView {
    ConnectionClosed,
    AlreadyClosed,
    Io(std::io::Error),
    ResetWithoutClosingHandshake,
    Protocol(Seq<char>),
    BadUrl(Seq<char>),
    MessageTooLong { size: nat, max_size: nat },
    Other(Seq<char>),
}

impl View for WsFault {
    type V = WsFaultView;

    open spec fn view(&self) -> WsFaultView {
        match *self {
            WsFault::ConnectionClosed => WsFaultView::ConnectionClosed,
            WsFault::AlreadyClosed => WsFaultView::AlreadyClosed,
            WsFault::Io(error) => WsFaultView::Io(error),
            WsFault::ResetWithoutClosingHandshake => WsFaultView::ResetWithoutClosingHandshake,
            WsFault::Protocol(text) => WsFaultView::Protocol(text@),
            WsFault::BadUrl(text) => WsFaultView::BadUrl(text@),
            WsFault::MessageTooLong { size, max_size } => WsFaultView::MessageTooLong {
                size: size as nat,
                max_size: max_size as nat,
            },
            WsFault::Other(text) => WsFaultView::Other(text@),
        }
    }
}

/// `tungstenite::Error`, known by what the driver tells apart.
#[verifier::external_type_specification]
#[verifier::external_body]
pub struct ExError(Error);

/// What an error is.
pub uninterp spec fn ws_fault_of(e: Error) -> WsFaultView;

/// Takes a `tungstenite::Error` apart: its variant, with the fields or the message that go
/// with it. An I/O error is handed on as it came.
#[verifier::external_body]
pub(crate) fn read_ws_error(e: Error) -> (r: WsFault)
    ensures
        r@ == ws_fault_of(e),
{
    match e {
        Error::ConnectionClosed => WsFault::ConnectionClosed,
        Error::AlreadyClosed => WsFault::AlreadyClosed,
        Error::Io(error) => WsFault::Io(error),
        Error::Protocol(ProtocolError::ResetWithoutClosingHandshake) =>
            WsFault::ResetWithoutClosingHandshake,
        Error::Protocol(e) => WsFault::Protocol(e.to_string()),
        Error::Url(e) => WsFault::BadUrl(e.to_string()),
        Error::Capacity(CapacityError::MessageTooLong { size, max_size }) =>
            WsFault::MessageTooLong { size, max_size },
        other => WsFault::Other(other.to_string()),
    }
}

// ---------------------------------------------------------------------------
// Messages
// ---------------------------------------------------------------------------

/// A message of the WebSocket, as far as the driver tells messages apart.
pub enum WsMessage {
    /// Text.
    Text(String),
    /// Binary data.
    Binary(Bytes),
    /// A ping.
    Ping,
    /// A pong.
    Pong,
    /// A raw frame.
    Frame,
    /// The start of the closing handshake, or the answer to it, with the code and the reason
    /// that it gives.
    Close(Option<(u16, String)>),
}

/// The same as mathematical values.
pub enum WsMessageView {
    Text(Seq<char>),
    Binary(Seq<u8>),
    Ping,
    Pong,
    Frame,
    Close(Option<(u16, Seq<char>)>),
}

impl View for WsMessage {
    type V = WsMessageView;

    open spec fn view(&self) -> WsMessageView {
        match *self {
            WsMessage::Text(text) => WsMessageView::Text(text@),
            WsMessage::Binary(data) => WsMessageView::Binary(crate::payload::contents(data)),
            WsMessage::Ping => WsMessageView::Ping,
            WsMessage::Pong => WsMessageView::Pong,
            WsMessage::Frame => WsMessageView::Frame,
            WsMessage::Close(None) => WsMessageView::Close(None),
            WsMessage::Close(Some(why)) => WsMessageView::Close(Some((why.0, why.1@))),
        }
    }
}

/// `tungstenite::Message`, known by what the driver tells apart.
#[verifier::external_type_specification]
#[verifier::external_body]
pub struct ExMessage(Message);

/// What a message is.
pub uninterp spec fn message_of(m: Message) -> WsMessageView;

/// Reads a `tungstenite::Message`: its variant, and the payload of text and binary data,
/// or the code and the reason of a close.
#[verifier::external_body]
pub(crate) fn read_message(m: Message) -> (r: WsMessage)
    ensures
        r@ == message_of(m),
{
    match m {
        Message::Text(text) => WsMessage::Text(text.as_str().to_owned()),
        Message::Binary(data) => WsMessage::Binary(data),
        Message::Ping(_) => WsMessage::Ping,
        Message::Pong(_) => WsMessage::Pong,
        Message::Frame(_) => WsMessage::Frame,
        Message::Close(None) => WsMessage::Close(None),
        Message::Close(Some(why)) => WsMessage::Close(
            Some((u16::from(why.code), why.reason.as_str().to_owned())),
        ),
    }
}

/// `Message::Binary`: a message that carries the given bytes.
#[verifier::external_body]
pub(crate) fn binary_message(data: Bytes) -> (r: Message)
    ensures
        message_of(r) == WsMessageView::Binary(crate::payload::contents(data)),
{
    Message::Binary(data)
}

/// `Message::Close`: a closing message without a code or a reason.
#[verifier::external_body]
pub(crate) fn bare_close_message() -> (r: Message)
    ensures
        message_of(r) == WsMessageView::Close(None),
{
    Message::Close(None)
}

/// What was read of a socket error is told by its variant and by all that it carries; so is
/// what was read of a message.
pub proof fn law_faults_and_messages_keep_what_they_carry(f: WsFault, m: WsMessage)
    ensures
        match f {
            WsFault::ConnectionClosed => f@ is ConnectionClosed,
            WsFault::AlreadyClosed => f@ is AlreadyClosed,
            WsFault::Io(error) => f@ == WsFaultView::Io(error),
            WsFault::ResetWithoutClosingHandshake => f@ is ResetWithoutClosingHandshake,
            WsFault::Protocol(text) => f@ == WsFaultView::Protocol(text@),
            WsFault::BadUrl(text) => f@ == WsFaultView::BadUrl(text@),
            WsFault::MessageTooLong { size, max_size } => f@ is MessageTooLong && f@->size == size
                && f@->max_size == max_size,
            WsFault::Other(text) => f@ == WsFaultView::Other(text@),
        },
        match m {
            WsMessage::Text(text) => m@ == WsMessageView::Text(text@),
            WsMessage::Binary(data) => m@ == WsMessageView::Binary(crate::payload::contents(data)),
            WsMessage::Ping => m@ is Ping,
            WsMessage::Pong => m@ is Pong,
            WsMessage::Frame => m@ is Frame,
            WsMessage::Close(None) => m@ == WsMessageView::Close(None),
            WsMessage::Close(Some(why)) => m@ == WsMessageView::Close(Some((why.0, why.1@))),
        },
{
}

} // verus!
