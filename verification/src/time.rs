//! Time values: the span type of the standard library and a point on the Unix clock.

use std::time::Duration;
use vstd::prelude::*;

verus! {

/// Nanoseconds in one second.
pub const NANOS_PER_SEC: u32 = 1_000_000_000;

/// The length of a [`Duration`] in nanoseconds, as `Duration::as_nanos` reports it.
pub uninterp spec fn duration_nanos(d: Duration) -> nat;

/// The text that `Debug` prints for a [`Duration`] of the given number of nanoseconds.
pub uninterp spec fn duration_text(nanos: nat) -> Seq<char>;

/// The length of an optional span, in nanoseconds.
pub open spec fn span_nanos(d: Option<Duration>) -> Option<nat> {
    match d {
        Some(d) => Some(duration_nanos(d)),
        None => None,
    }
}

/// `Duration::new`: the span of `secs` whole seconds and `nanos` nanoseconds. It panics only
/// where the nanoseconds carry over a second, which the precondition rules out.
#[verifier::external_body]
pub(crate) fn duration_of(secs: u64, nanos: u32) -> (r: Duration)
    requires
        nanos < NANOS_PER_SEC,
    ensures
        duration_nanos(r) == secs * 1_000_000_000 + nanos,
{
    Duration::new(secs, nanos)
}

/// `Debug` of a [`Duration`]: the text depends on the length of the span alone.
#[verifier::external_body]
pub(crate) fn duration_debug(d: Duration) -> (r: String)
    ensures
        r@ == duration_text(duration_nanos(d)),
{
    format!("{:?}", d)
}

/// A point in time, counted from the Unix epoch; it may lie before the epoch.
#[derive(Clone, Copy, Debug, PartialEq, Eq)]
pub struct UnixTime {
    secs: i64,
    nanos: u32,
}

impl View for UnixTime {
    type V = int;

    /// Nanoseconds since the Unix epoch.
    closed spec fn view(&self) -> int {
        self.secs * 1_000_000_000 + self.nanos
    }
}

impl UnixTime {
    #[verifier::type_invariant]
    spec fn inv(self) -> bool {
        self.nanos < 1_000_000_000
    }

    /// The point `secs` seconds after the epoch (before it, where negative).
    pub fn from_secs(secs: i64) -> (r: Self)
        ensures
            r@ == secs * 1_000_000_000,
    {
        UnixTime { secs, nanos: 0 }
    }

    /// The point `nanos` nanoseconds after the second `secs`; `None` where `nanos` is not
    /// below a second.
    pub fn new(secs: i64, nanos: u32) -> (r: Option<Self>)
        ensures
            r is Some <==> nanos < NANOS_PER_SEC,
            r matches Some(t) ==> t@ == secs * 1_000_000_000 + nanos,
    {
        if nanos < NANOS_PER_SEC {
            Some(UnixTime { secs, nanos })
        } else {
            None
        }
    }

    /// The span from `now` until `self`; zero where `self` is not after `now`.
    pub fn since(self, now: UnixTime) -> (r: Duration)
        ensures
            duration_nanos(r) == (if self@ > now@ {
                self@ - now@
            } else {
                0
            }),
    {
        proof {
            use_type_invariant(&self);
            use_type_invariant(&now);
        }
        if self.secs < now.secs || (self.secs == now.secs && self.nanos <= now.nanos) {
            return duration_of(0, 0);
        }
        let whole: i128 = self.secs as i128 - now.secs as i128;
        if self.nanos >= now.nanos {
            duration_of(whole as u64, self.nanos - now.nanos)
        } else {
            duration_of((whole - 1) as u64, NANOS_PER_SEC - now.nanos + self.nanos)
        }
    }
}

/// An optional span is as long as the span that it is, and none is none.
pub proof fn law_optional_spans_keep_their_length(d: Duration)
    ensures
        span_nanos(Some(d)) == Some(duration_nanos(d)),
        span_nanos(None) is None,
{
}

} // verus!
