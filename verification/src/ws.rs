//! The WebSocket driver: its limits, what it makes of incoming messages, and which failure of
//! the socket is which.
//!
//! The driver does no I/O of its own. A connection is opened with
//! [`TungsteniteWsConnector::socket_config`] and judged by [`connect_outcome`]; each item of
//! the incoming stream goes through [`read_step`] until it says what `next_frame` returns.

use crate::error::{ErrorView, IoSource, SourceView, TransportError};
use crate::io::{tell_apart, IoKind};
use crate::socket::{
    bare_close_message, binary_message, read_message, read_ws_error, SocketSettings, WsFault,
    WsFaultView, WsMessage, WsMessageView,
};
use crate::time::duration_of;
use bytes::Bytes;
use std::time::Duration;
use tokio_tungstenite::tungstenite::protocol::WebSocketConfig;
use tokio_tungstenite::tungstenite::{Error, Message};
use vstd::prelude::*;

verus! {

// ---------------------------------------------------------------------------
// The connector
// ---------------------------------------------------------------------------

/// The connect timeout of a connector that none is given for: 30 seconds.
pub fn default_ws_connect_timeout() -> (r: Duration)
    ensures
        crate::time::duration_nanos(r) == 30_000_000_000,
{
    duration_of(crate::DEFAULT_WS_CONNECT_TIMEOUT_SECS, 0)
}

/// A WebSocket connector on `tungstenite`, with a timeout for connecting and a limit on
/// frames.
#[derive(Debug, Clone, Copy)]
pub struct TungsteniteWsConnector {
    connect_timeout: Duration,
    max_frame_bytes: usize,
}

impl TungsteniteWsConnector {
    /// The time allowed for connecting, in nanoseconds.
    pub closed spec fn timeout_nanos(self) -> nat {
        crate::time::duration_nanos(self.connect_timeout)
    }

    /// The limit on frames; zero for none.
    pub closed spec fn frame_limit(self) -> usize {
        self.max_frame_bytes
    }

    /// A connector with the default timeout and frame limit: 30 seconds and 4 MiB.
    pub fn new() -> (r: Self)
        ensures
            r.timeout_nanos() == 30_000_000_000,
            r.frame_limit() == 4_194_304,
    {
        TungsteniteWsConnector {
            connect_timeout: default_ws_connect_timeout(),
            max_frame_bytes: crate::DEFAULT_MAX_WS_FRAME_BYTES,
        }
    }

    /// A connector with the given timeout and frame limit; a limit of zero is none.
    pub fn with_limits(connect_timeout: Duration, max_frame_bytes: usize) -> (r: Self)
        ensures
            r.timeout_nanos() == crate::time::duration_nanos(connect_timeout),
            r.frame_limit() == max_frame_bytes,
    {
        TungsteniteWsConnector { connect_timeout, max_frame_bytes }
    }

    /// The time allowed for connecting.
    pub fn connect_timeout(&self) -> (r: Duration)
        ensures
            crate::time::duration_nanos(r) == self.timeout_nanos(),
    {
        self.connect_timeout
    }

    /// The limit on frames, in bytes; zero for none.
    pub fn max_frame_bytes(&self) -> (r: usize)
        ensures
            r == self.frame_limit(),
    {
        self.max_frame_bytes
    }

    /// The configuration that a connection is opened with: the frame limit bounds incoming
    /// frames and messages alike, before they are decoded or put together.
    pub fn socket_config(&self) -> (r: WebSocketConfig)
        ensures
            crate::socket::socket_settings(r) == (SocketSettings {
                max_frame_size: inbound_limit(self.frame_limit()),
                max_message_size: inbound_limit(self.frame_limit()),
                ..crate::socket::default_socket_settings()
            }),
            self.frame_limit() > 0 ==> crate::socket::socket_settings(r).max_frame_size == Some(
                self.frame_limit(),
            ) && crate::socket::socket_settings(r).max_message_size == Some(self.frame_limit()),
            self.frame_limit() == 0 ==> crate::socket::socket_settings(r).max_frame_size is None
                && crate::socket::socket_settings(r).max_message_size is None,
            !crate::socket::socket_settings(r).accept_unmasked_frames,
    {
        let limit: Option<usize> = if self.max_frame_bytes > 0 {
            Some(self.max_frame_bytes)
        } else {
            None
        };
        WebSocketConfig::default().max_frame_size(limit).max_message_size(limit)
    }
}

impl Default for TungsteniteWsConnector {
    fn default() -> (r: Self)
        ensures
            r.timeout_nanos() == 30_000_000_000,
            r.frame_limit() == 4_194_304,
    {
        Self::new()
    }
}

/// A frame limit as the socket takes it: zero is none.
pub open spec fn inbound_limit(max_frame_bytes: usize) -> Option<usize> {
    if max_frame_bytes > 0 {
        Some(max_frame_bytes)
    } else {
        None
    }
}

// ---------------------------------------------------------------------------
// Failures
// ---------------------------------------------------------------------------

/// Whether an I/O error of this kind means that the connection was cut off.
pub open spec fn cuts_off(kind: IoKind) -> bool {
    !(kind is Other)
}

/// The transport error for an I/O error of the given kind: a connection that is cut off is
/// closed, though not cleanly; any other error is handed on as it came.
pub open spec fn io_error(kind: IoKind, error: std::io::Error) -> ErrorView {
    if cuts_off(kind) {
        ErrorView::ConnectionClosed { clean: false }
    } else {
        ErrorView::Io(SourceView::System(error))
    }
}

/// The transport error for an error of the socket. A closing handshake that is complete
/// closes the connection cleanly; a peer that goes away closes it, not cleanly; a message over
/// its limit is too large; I/O errors stay what they are; the rest breaks the protocol.
pub open spec fn ws_error(f: WsFaultView) -> ErrorView {
    match f {
        WsFaultView::ConnectionClosed => ErrorView::ConnectionClosed { clean: true },
        WsFaultView::AlreadyClosed => ErrorView::ConnectionClosed { clean: true },
        WsFaultView::Io(error) => io_error(
            crate::io::told_apart(crate::io::error_kind(error)),
            error,
        ),
        WsFaultView::ResetWithoutClosingHandshake => ErrorView::ConnectionClosed { clean: false },
        WsFaultView::Protocol(text) => ErrorView::ProtocolViolation(text),
        WsFaultView::BadUrl(text) => ErrorView::ProtocolViolation(text),
        WsFaultView::MessageTooLong { size, max_size } => ErrorView::PayloadTooLarge {
            kind: "ws_message"@,
            limit: max_size,
            got: size,
        },
        WsFaultView::Other(text) => ErrorView::ProtocolViolation(text),
    }
}

/// The transport error for an I/O error of the given kind.
pub fn map_io_error(kind: IoKind, error: std::io::Error) -> (r: TransportError)
    ensures
        r@ == io_error(kind, error),
{
    match kind {
        IoKind::UnexpectedEof
        | IoKind::ConnectionReset
        | IoKind::ConnectionAborted
        | IoKind::BrokenPipe => TransportError::ConnectionClosed { clean: false },
        IoKind::Other => TransportError::Io(IoSource::System(error)),
    }
}

/// The transport error for what was read of an error of the socket.
pub fn map_ws_fault(fault: WsFault) -> (r: TransportError)
    ensures
        r@ == ws_error(fault@),
{
    match fault {
        WsFault::ConnectionClosed => TransportError::ConnectionClosed { clean: true },
        WsFault::AlreadyClosed => TransportError::ConnectionClosed { clean: true },
        WsFault::Io(error) => map_io_error(tell_apart(error.kind()), error),
        WsFault::ResetWithoutClosingHandshake => TransportError::ConnectionClosed { clean: false },
        WsFault::Protocol(text) => TransportError::ProtocolViolation(text),
        WsFault::BadUrl(text) => TransportError::ProtocolViolation(text),
        WsFault::MessageTooLong { size, max_size } => TransportError::PayloadTooLarge {
            kind: "ws_message",
            limit: max_size,
            got: size,
        },
        WsFault::Other(text) => TransportError::ProtocolViolation(text),
    }
}

/// The transport error for an error of the socket.
pub fn map_tungstenite_error(error: Error) -> (r: TransportError)
    ensures
        r@ == ws_error(crate::socket::ws_fault_of(error)),
{
    map_ws_fault(read_ws_error(error))
}

/// What comes of connecting, given what came in time: nothing, an error, or a connection.
pub fn connect_outcome<S>(outcome: Option<Result<S, Error>>) -> (r: Result<S, TransportError>)
    ensures
        match outcome {
            None => r matches Err(e) && e@ is ConnectTimeout,
            Some(Err(error)) => r matches Err(e) && e@ == ws_error(
                crate::socket::ws_fault_of(error),
            ),
            Some(Ok(stream)) => r == Ok::<S, TransportError>(stream),
        },
{
    match outcome {
        None => Err(TransportError::ConnectTimeout),
        Some(Err(error)) => Err(map_tungstenite_error(error)),
        Some(Ok(stream)) => Ok(stream),
    }
}

/// What comes of sending a message.
pub fn send_outcome(outcome: Result<(), Error>) -> (r: Result<(), TransportError>)
    ensures
        match outcome {
            Ok(_) => r is Ok,
            Err(error) => r matches Err(e) && e@ == ws_error(
                crate::socket::ws_fault_of(error),
            ),
        },
{
    match outcome {
        Ok(_) => Ok(()),
        Err(error) => Err(map_tungstenite_error(error)),
    }
}

// ---------------------------------------------------------------------------
// Frames
// ---------------------------------------------------------------------------

/// What the frame limit makes of a payload: the payload whole, or an error.
pub open spec fn limited(max_frame_bytes: usize, payload: Seq<u8>) -> Result<Seq<u8>, ErrorView> {
    if crate::exchange::over_limit(max_frame_bytes as nat, payload.len()) {
        Err(
            ErrorView::PayloadTooLarge {
                kind: "ws_frame"@,
                limit: max_frame_bytes as nat,
                got: payload.len(),
            },
        )
    } else {
        Ok(payload)
    }
}

/// The payload, where it is not over the frame limit; a limit of zero is none.
pub fn enforce_frame_limit(max_frame_bytes: usize, payload: Bytes) -> (r: Result<
    Bytes,
    TransportError,
>)
    ensures
        match r {
            Ok(frame) => frame == payload && limited(
                max_frame_bytes,
                crate::payload::contents(payload),
            ) is Ok,
            Err(e) => limited(max_frame_bytes, crate::payload::contents(payload)) == Err::<
                Seq<u8>,
                ErrorView,
            >(e@),
        },
        r is Ok <==> max_frame_bytes == 0 || crate::payload::contents(payload).len()
            <= max_frame_bytes,
        r matches Err(e) ==> e@ == (ErrorView::PayloadTooLarge {
            kind: "ws_frame"@,
            limit: max_frame_bytes as nat,
            got: crate::payload::contents(payload).len(),
        }),
{
    if max_frame_bytes > 0 && payload.len() > max_frame_bytes {
        return Err(
            TransportError::PayloadTooLarge {
                kind: "ws_frame",
                limit: max_frame_bytes,
                got: payload.len(),
            },
        );
    }
    Ok(payload)
}

/// The message that carries a frame to the peer, where the frame is not over the limit.
pub fn outgoing_frame(max_frame_bytes: usize, frame: Bytes) -> (r: Result<Message, TransportError>)
    ensures
        match r {
            Ok(m) => limited(max_frame_bytes, crate::payload::contents(frame)) is Ok
                && crate::socket::message_of(m) == WsMessageView::Binary(
                crate::payload::contents(frame),
            ),
            Err(e) => limited(max_frame_bytes, crate::payload::contents(frame)) == Err::<
                Seq<u8>,
                ErrorView,
            >(e@),
        },
        r is Ok <==> max_frame_bytes == 0 || crate::payload::contents(frame).len()
            <= max_frame_bytes,
        r matches Err(e) ==> e@ == (ErrorView::PayloadTooLarge {
            kind: "ws_frame"@,
            limit: max_frame_bytes as nat,
            got: crate::payload::contents(frame).len(),
        }),
{
    match enforce_frame_limit(max_frame_bytes, frame) {
        Ok(frame) => Ok(binary_message(frame)),
        Err(error) => Err(error),
    }
}

/// The message that closes a connection: a close without a code or a reason.
pub fn close_message() -> (r: Message)
    ensures
        crate::socket::message_of(r) == WsMessageView::Close(None),
{
    bare_close_message()
}

/// One item of the incoming stream: a message, an error, or its end.
pub enum ItemView {
    Message(WsMessageView),
    Fault(WsFaultView),
    End,
}

/// What `next_frame` returns: a frame, no frame because the peer closes, or an error.
pub type FrameView = Result<Option<Seq<u8>>, ErrorView>;

/// What an item makes `next_frame` return; none where it reads on.
pub open spec fn item_result(max_frame_bytes: usize, item: ItemView) -> Option<FrameView> {
    match item {
        ItemView::Message(WsMessageView::Text(text)) => Some(
            match limited(max_frame_bytes, vstd::utf8::encode_utf8(text)) {
                Ok(frame) => Ok(Some(frame)),
                Err(e) => Err(e),
            },
        ),
        ItemView::Message(WsMessageView::Binary(data)) => Some(
            match limited(max_frame_bytes, data) {
                Ok(frame) => Ok(Some(frame)),
                Err(e) => Err(e),
            },
        ),
        ItemView::Message(WsMessageView::Close(_)) => Some(Ok(None)),
        ItemView::Message(_) => None,
        ItemView::Fault(f) => Some(Err(ws_error(f))),
        ItemView::End => Some(Err(ErrorView::ConnectionClosed { clean: false })),
    }
}

/// Whether `next_frame` is done, and with what.
pub enum FrameStep {
    /// The item was a control message: read on.
    Skip,
    /// `next_frame` returns this.
    Done(Result<Option<Bytes>, TransportError>),
}

impl View for FrameStep {
    type V = Option<FrameView>;

    open spec fn view(&self) -> Option<FrameView> {
        match *self {
            FrameStep::Skip => None,
            FrameStep::Done(Ok(frame)) => Some(Ok(crate::payload::optional_contents(frame))),
            FrameStep::Done(Err(e)) => Some(Err(e@)),
        }
    }
}

fn frame_step(max_frame_bytes: usize, payload: Bytes) -> (r: FrameStep)
    ensures
        r@ == Some(
            match limited(max_frame_bytes, crate::payload::contents(payload)) {
                Ok(frame) => Ok(Some(frame)),
                Err(e) => Err(e),
            },
        ),
{
    match enforce_frame_limit(max_frame_bytes, payload) {
        Ok(frame) => FrameStep::Done(Ok(Some(frame))),
        Err(error) => FrameStep::Done(Err(error)),
    }
}

/// What a message makes `next_frame` do: text and binary data are delivered, within the frame
/// limit; control messages are skipped; a close ends the frames.
pub fn message_step(max_frame_bytes: usize, message: WsMessage) -> (r: FrameStep)
    ensures
        r@ == item_result(max_frame_bytes, ItemView::Message(message@)),
        match message {
            WsMessage::Text(text) => {
                let b = vstd::utf8::encode_utf8(text@);
                if max_frame_bytes == 0 || b.len() <= max_frame_bytes {
                    r matches FrameStep::Done(Ok(Some(frame))) && crate::payload::contents(frame)
                        == b
                } else {
                    r matches FrameStep::Done(Err(e)) && e@ == (ErrorView::PayloadTooLarge {
                        kind: "ws_frame"@,
                        limit: max_frame_bytes as nat,
                        got: b.len(),
                    })
                }
            },
            WsMessage::Binary(data) => {
                let b = crate::payload::contents(data);
                if max_frame_bytes == 0 || b.len() <= max_frame_bytes {
                    r matches FrameStep::Done(Ok(Some(frame))) && crate::payload::contents(frame)
                        == b
                } else {
                    r matches FrameStep::Done(Err(e)) && e@ == (ErrorView::PayloadTooLarge {
                        kind: "ws_frame"@,
                        limit: max_frame_bytes as nat,
                        got: b.len(),
                    })
                }
            },
            WsMessage::Close(_) => r matches FrameStep::Done(Ok(None)),
            _ => r is Skip,
        },
{
    match message {
        WsMessage::Text(text) => frame_step(
            max_frame_bytes,
            Bytes::copy_from_slice(text.as_str().as_bytes()),
        ),
        WsMessage::Binary(data) => frame_step(max_frame_bytes, data),
        WsMessage::Ping => FrameStep::Skip,
        WsMessage::Pong => FrameStep::Skip,
        WsMessage::Frame => FrameStep::Skip,
        WsMessage::Close(_) => FrameStep::Done(Ok(None)),
    }
}

/// An item of the stream as mathematical values.
pub open spec fn item_of(item: Option<Result<Message, Error>>) -> ItemView {
    match item {
        Some(Ok(m)) => ItemView::Message(crate::socket::message_of(m)),
        Some(Err(e)) => ItemView::Fault(crate::socket::ws_fault_of(e)),
        None => ItemView::End,
    }
}

/// What an item of the incoming stream makes `next_frame` do.
pub fn read_step(max_frame_bytes: usize, item: Option<Result<Message, Error>>) -> (r: FrameStep)
    ensures
        r@ == item_result(max_frame_bytes, item_of(item)),
        item is None ==> (r matches FrameStep::Done(Err(e)) && e@ == (
        ErrorView::ConnectionClosed { clean: false })),
        item matches Some(Err(error)) ==> (r matches FrameStep::Done(Err(e)) && e@ == ws_error(
            crate::socket::ws_fault_of(error),
        )),
        item matches Some(Ok(m)) ==> match crate::socket::message_of(m) {
            WsMessageView::Text(text) => max_frame_bytes == 0 || vstd::utf8::encode_utf8(text).len()
                <= max_frame_bytes ==> (r matches FrameStep::Done(Ok(Some(frame)))
                && crate::payload::contents(frame) == vstd::utf8::encode_utf8(text)),
            WsMessageView::Binary(data) => max_frame_bytes == 0 || data.len() <= max_frame_bytes
                ==> (r matches FrameStep::Done(Ok(Some(frame))) && crate::payload::contents(frame)
                == data),
            WsMessageView::Close(_) => r matches FrameStep::Done(Ok(None)),
            _ => r is Skip,
        },
{
    match item {
        Some(Ok(message)) => message_step(max_frame_bytes, read_message(message)),
        Some(Err(error)) => FrameStep::Done(Err(map_tungstenite_error(error))),
        None => FrameStep::Done(Err(TransportError::ConnectionClosed { clean: false })),
    }
}

// ---------------------------------------------------------------------------
// Laws
// ---------------------------------------------------------------------------

/// Whether an item is a control message that `next_frame` skips.
pub open spec fn is_control(item: ItemView) -> bool {
    ||| item matches ItemView::Message(WsMessageView::Ping)
    ||| item matches ItemView::Message(WsMessageView::Pong)
    ||| item matches ItemView::Message(WsMessageView::Frame)
}

/// What `next_frame` returns on a stream: what the first item that is not skipped makes of it.
/// A stream without one has ended.
pub open spec fn next_frame(max_frame_bytes: usize, items: Seq<ItemView>) -> FrameView
    decreases items.len(),
{
    if items.len() == 0 {
        Err(ErrorView::ConnectionClosed { clean: false })
    } else {
        match item_result(max_frame_bytes, items.first()) {
            Some(result) => result,
            None => next_frame(max_frame_bytes, items.drop_first()),
        }
    }
}

/// Control messages, and nothing else, are skipped.
pub proof fn law_only_control_messages_are_skipped(max_frame_bytes: usize, item: ItemView)
    ensures
        item_result(max_frame_bytes, item) is None <==> is_control(item),
{
}

/// Control messages at the head of a stream do not change what `next_frame` returns.
pub proof fn law_control_messages_are_invisible(
    max_frame_bytes: usize,
    controls: Seq<ItemView>,
    items: Seq<ItemView>,
)
    requires
        forall|i: int| 0 <= i < controls.len() ==> is_control(#[trigger] controls[i]),
    ensures
        next_frame(max_frame_bytes, controls + items) == next_frame(max_frame_bytes, items),
    decreases controls.len(),
{
    if controls.len() == 0 {
        assert(controls + items =~= items);
    } else {
        assert(is_control(controls[0]));
        assert((controls + items).first() == controls[0]);
        assert((controls + items).drop_first() =~= controls.drop_first() + items);
        assert forall|i: int| 0 <= i < controls.drop_first().len() implies is_control(
            #[trigger] controls.drop_first()[i],
        ) by {
            assert(is_control(controls[i + 1]));
        }
        law_control_messages_are_invisible(max_frame_bytes, controls.drop_first(), items);
    }
}

/// What `next_frame` delivers is a payload of the stream as it came, never one that is over
/// the limit and never a part of one.
pub proof fn law_frames_are_whole_and_within_limit(max_frame_bytes: usize, items: Seq<ItemView>)
    ensures
        next_frame(max_frame_bytes, items) matches Ok(Some(frame)) ==> {
            &&& !crate::exchange::over_limit(max_frame_bytes as nat, frame.len())
            &&& exists|i: int|
                0 <= i < items.len() && (#[trigger] items[i] == ItemView::Message(
                    WsMessageView::Binary(frame),
                ) || (items[i] matches ItemView::Message(WsMessageView::Text(text))
                    && vstd::utf8::encode_utf8(text) == frame))
        },
    decreases items.len(),
{
    if items.len() > 0 {
        if item_result(max_frame_bytes, items.first()) is None {
            let rest = items.drop_first();
            law_frames_are_whole_and_within_limit(max_frame_bytes, rest);
            if let Ok(Some(frame)) = next_frame(max_frame_bytes, rest) {
                let i = choose|i: int|
                    0 <= i < rest.len() && (#[trigger] rest[i] == ItemView::Message(
                        WsMessageView::Binary(frame),
                    ) || (rest[i] matches ItemView::Message(WsMessageView::Text(text))
                        && vstd::utf8::encode_utf8(text) == frame));
                assert(items[i + 1] == rest[i]);
            }
        } else {
            assert(items[0] == items.first());
        }
    }
}

/// A frame that is accepted for sending reaches the reading side of a connection with the
/// same limit unchanged.
pub proof fn law_sent_frames_are_read_back(max_frame_bytes: usize, frame: Seq<u8>)
    requires
        limited(max_frame_bytes, frame) is Ok,
    ensures
        item_result(max_frame_bytes, ItemView::Message(WsMessageView::Binary(frame))) == Some(
            Ok::<Option<Seq<u8>>, ErrorView>(Some(frame)),
        ),
{
}

/// A connection counts as closed cleanly exactly where the closing handshake was completed;
/// a connection that is cut off, and a stream that just ends, do not.
pub proof fn law_clean_close_needs_the_handshake(f: WsFaultView, max_frame_bytes: usize)
    ensures
        ws_error(f) == (ErrorView::ConnectionClosed { clean: true }) <==> (
        f is ConnectionClosed || f is AlreadyClosed),
        next_frame(max_frame_bytes, Seq::empty()) == Err::<Option<Seq<u8>>, ErrorView>(
            ErrorView::ConnectionClosed { clean: false },
        ),
{
}

/// Without a frame limit every payload passes.
pub proof fn law_zero_limit_lets_all_pass(payload: Seq<u8>)
    ensures
        limited(0, payload) == Ok::<Seq<u8>, ErrorView>(payload),
{
}

// ---------------------------------------------------------------------------
// Laws in plain terms
// ---------------------------------------------------------------------------

/// A frame passes whole exactly where there is no limit or it is not longer than the limit;
/// otherwise the error says the limit and its length.
pub proof fn law_a_frame_passes_whole_or_not_at_all(max_frame_bytes: usize, payload: Seq<u8>)
    ensures
        max_frame_bytes == 0 || payload.len() <= max_frame_bytes ==> limited(
            max_frame_bytes,
            payload,
        ) == Ok::<Seq<u8>, ErrorView>(payload),
        max_frame_bytes > 0 && payload.len() > max_frame_bytes ==> limited(
            max_frame_bytes,
            payload,
        ) == Err::<Seq<u8>, ErrorView>(
            ErrorView::PayloadTooLarge {
                kind: "ws_frame"@,
                limit: max_frame_bytes as nat,
                got: payload.len(),
            },
        ),
{
}

/// The socket is given the frame limit itself, and none where that is zero.
pub proof fn law_the_socket_is_given_the_frame_limit(max_frame_bytes: usize)
    ensures
        max_frame_bytes > 0 ==> inbound_limit(max_frame_bytes) == Some(max_frame_bytes),
        inbound_limit(0) is None,
{
}

/// Which transport error each error of the socket is. Only a completed closing handshake
/// closes cleanly; a peer that goes away closes, not cleanly; every other I/O error is kept;
/// sizes and messages are those of the socket.
pub proof fn law_which_error_is_which(
    error: std::io::Error,
    kind: IoKind,
    text: Seq<char>,
    size: nat,
    max_size: nat,
)
    ensures
        ws_error(WsFaultView::ConnectionClosed) == (ErrorView::ConnectionClosed { clean: true }),
        ws_error(WsFaultView::AlreadyClosed) == (ErrorView::ConnectionClosed { clean: true }),
        ws_error(WsFaultView::ResetWithoutClosingHandshake) == (ErrorView::ConnectionClosed {
            clean: false,
        }),
        ws_error(WsFaultView::Protocol(text)) == ErrorView::ProtocolViolation(text),
        ws_error(WsFaultView::BadUrl(text)) == ErrorView::ProtocolViolation(text),
        ws_error(WsFaultView::Other(text)) == ErrorView::ProtocolViolation(text),
        ws_error(WsFaultView::MessageTooLong { size, max_size }) == (ErrorView::PayloadTooLarge {
            kind: "ws_message"@,
            limit: max_size,
            got: size,
        }),
        ({
            let told = crate::io::told_apart(crate::io::error_kind(error));
            ws_error(WsFaultView::Io(error)) == io_error(told, error)
        }),
        io_error(IoKind::UnexpectedEof, error) == (ErrorView::ConnectionClosed { clean: false }),
        io_error(IoKind::ConnectionReset, error) == (ErrorView::ConnectionClosed { clean: false }),
        io_error(IoKind::ConnectionAborted, error) == (ErrorView::ConnectionClosed {
            clean: false,
        }),
        io_error(IoKind::BrokenPipe, error) == (ErrorView::ConnectionClosed { clean: false }),
        io_error(IoKind::Other, error) == ErrorView::Io(SourceView::System(error)),
{
}

/// An item of the stream is the message or the error that came, or the end where none did.
pub proof fn law_items_are_what_came(m: Message, e: Error)
    ensures
        item_of(Some(Ok(m))) == ItemView::Message(crate::socket::message_of(m)),
        item_of(Some(Err(e))) == ItemView::Fault(crate::socket::ws_fault_of(e)),
        item_of(None) is End,
{
}

/// What a step says is what `next_frame` returns, byte for byte, or that it reads on.
pub proof fn law_steps_keep_what_they_return(s: FrameStep)
    ensures
        match s {
            FrameStep::Skip => s@ is None,
            FrameStep::Done(Ok(Some(b))) => s@ == Some(
                Ok::<Option<Seq<u8>>, ErrorView>(Some(crate::payload::contents(b))),
            ),
            FrameStep::Done(Ok(None)) => s@ == Some(Ok::<Option<Seq<u8>>, ErrorView>(None)),
            FrameStep::Done(Err(e)) => s@ == Some(Err::<Option<Seq<u8>>, ErrorView>(e@)),
        },
{
}

/// Behind any number of pings, pongs and raw frames, the next item decides what `next_frame`
/// returns, whatever follows it: text and binary data whole, where they are not longer than
/// the limit; no frame for a close; the error for an error; and an unclean close for the end.
pub proof fn law_first_item_that_counts_decides(
    max_frame_bytes: usize,
    controls: Seq<ItemView>,
    item: ItemView,
    rest: Seq<ItemView>,
)
    requires
        forall|i: int|
            0 <= i < controls.len() ==> match #[trigger] controls[i] {
                ItemView::Message(WsMessageView::Ping) => true,
                ItemView::Message(WsMessageView::Pong) => true,
                ItemView::Message(WsMessageView::Frame) => true,
                _ => false,
            },
    ensures
        ({
            let r = next_frame(max_frame_bytes, controls + seq![item] + rest);
            let fits = |n: nat| max_frame_bytes == 0 || n <= max_frame_bytes;
            let too_large = |n: nat|
                ErrorView::PayloadTooLarge {
                    kind: "ws_frame"@,
                    limit: max_frame_bytes as nat,
                    got: n,
                };
            match item {
                ItemView::Message(WsMessageView::Text(t)) => {
                    let b = vstd::utf8::encode_utf8(t);
                    if fits(b.len()) {
                        r == Ok::<Option<Seq<u8>>, ErrorView>(Some(b))
                    } else {
                        r == Err::<Option<Seq<u8>>, ErrorView>(too_large(b.len()))
                    }
                },
                ItemView::Message(WsMessageView::Binary(b)) => if fits(b.len()) {
                    r == Ok::<Option<Seq<u8>>, ErrorView>(Some(b))
                } else {
                    r == Err::<Option<Seq<u8>>, ErrorView>(too_large(b.len()))
                },
                ItemView::Message(WsMessageView::Close(_)) => r == Ok::<
                    Option<Seq<u8>>,
                    ErrorView,
                >(None),
                ItemView::Message(_) => r == next_frame(max_frame_bytes, rest),
                ItemView::Fault(f) => r == Err::<Option<Seq<u8>>, ErrorView>(ws_error(f)),
                ItemView::End => r == Err::<Option<Seq<u8>>, ErrorView>(
                    ErrorView::ConnectionClosed { clean: false },
                ),
            }
        }),
{
    assert forall|i: int| 0 <= i < controls.len() implies is_control(#[trigger] controls[i]) by {
        assert(match controls[i] {
            ItemView::Message(WsMessageView::Ping) => true,
            ItemView::Message(WsMessageView::Pong) => true,
            ItemView::Message(WsMessageView::Frame) => true,
            _ => false,
        });
    }
    let tail = seq![item] + rest;
    assert(controls + seq![item] + rest =~= controls + tail);
    law_control_messages_are_invisible(max_frame_bytes, controls, tail);
    assert(tail.first() == item);
    assert(tail.drop_first() =~= rest);
}

/// `next_frame` says that the peer closes only where it does: the first item that is no ping,
/// pong or raw frame is a close.
pub proof fn law_no_frame_means_a_close(max_frame_bytes: usize, items: Seq<ItemView>)
    requires
        next_frame(max_frame_bytes, items) == Ok::<Option<Seq<u8>>, ErrorView>(None),
    ensures
        exists|k: int|
            0 <= k < items.len() && (#[trigger] items[k] matches ItemView::Message(
                WsMessageView::Close(_),
            )) && (forall|i: int|
                0 <= i < k ==> match #[trigger] items[i] {
                    ItemView::Message(WsMessageView::Ping) => true,
                    ItemView::Message(WsMessageView::Pong) => true,
                    ItemView::Message(WsMessageView::Frame) => true,
                    _ => false,
                }),
    decreases items.len(),
{
    assert(items.len() > 0);
    assert(items.first() == items[0]);
    if item_result(max_frame_bytes, items.first()) is None {
        let rest = items.drop_first();
        law_no_frame_means_a_close(max_frame_bytes, rest);
        let k = choose|k: int|
            0 <= k < rest.len() && (#[trigger] rest[k] matches ItemView::Message(
                WsMessageView::Close(_),
            )) && (forall|i: int|
                0 <= i < k ==> match #[trigger] rest[i] {
                    ItemView::Message(WsMessageView::Ping) => true,
                    ItemView::Message(WsMessageView::Pong) => true,
                    ItemView::Message(WsMessageView::Frame) => true,
                    _ => false,
                });
        assert(items[k + 1] == rest[k]);
        assert forall|i: int| 0 <= i < k + 1 implies match #[trigger] items[i] {
            ItemView::Message(WsMessageView::Ping) => true,
            ItemView::Message(WsMessageView::Pong) => true,
            ItemView::Message(WsMessageView::Frame) => true,
            _ => false,
        } by {
            if i > 0 {
                assert(items[i] == rest[i - 1]);
            }
        }
    }
}

} // verus!
