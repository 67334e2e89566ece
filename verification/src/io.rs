//! I/O errors of the standard library.

use vstd::prelude::*;

verus! {

/// `std::io::Error`, known by its kind.
#[verifier::external_type_specification]
#[verifier::external_body]
pub struct ExIoError(std::io::Error);

/// `std::io::ErrorKind`, of which some values are told apart.
#[verifier::external_type_specification]
#[verifier::external_body]
pub struct ExIoErrorKind(std::io::ErrorKind);

/// The kind of an I/O error.
pub uninterp spec fn error_kind(e: std::io::Error) -> std::io::ErrorKind;

/// `io::Error::kind`: the kind of the error.
pub assume_specification[ std::io::Error::kind ](e: &std::io::Error) -> (r: std::io::ErrorKind)
    ensures
        r == error_kind(*e),
;

/// The kinds of I/O error that are told apart.
#[derive(Clone, Copy, Debug, PartialEq, Eq)]
pub enum IoKind {
    /// The stream ended in the middle of something.
    UnexpectedEof,
    /// The peer reset the connection.
    ConnectionReset,
    /// The connection was aborted.
    ConnectionAborted,
    /// The other end of the pipe is gone.
    BrokenPipe,
    /// Anything else.
    Other,
}

/// Which of the kinds that are told apart a kind is.
pub uninterp spec fn told_apart(kind: std::io::ErrorKind) -> IoKind;

/// `std::io::ErrorKind`: the variant, where it is one of those told apart.
#[verifier::external_body]
pub(crate) fn tell_apart(kind: std::io::ErrorKind) -> (r: IoKind)
    ensures
        r == told_apart(kind),
{
    match kind {
        std::io::ErrorKind::UnexpectedEof => IoKind::UnexpectedEof,
        std::io::ErrorKind::ConnectionReset => IoKind::ConnectionReset,
        std::io::ErrorKind::ConnectionAborted => IoKind::ConnectionAborted,
        std::io::ErrorKind::BrokenPipe => IoKind::BrokenPipe,
        _ => IoKind::Other,
    }
}

/// `io::Error::to_string`: the message of the error. The operating system may word it, so
/// nothing is said of it.
#[verifier::external_body]
pub(crate) fn io_message(e: &std::io::Error) -> String {
    e.to_string()
}

} // verus!
