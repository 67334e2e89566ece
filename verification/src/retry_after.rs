//! `Retry-After`: how long a server asks its client to wait.

use crate::text::{parse_unsigned, trimmed};
use crate::time::{duration_of, UnixTime};
use std::time::{Duration, UNIX_EPOCH};
use vstd::prelude::*;

verus! {

/// The point that `httpdate::parse_http_date` reads from a text, in whole seconds since the
/// Unix epoch; `None` where it reads no date.
pub uninterp spec fn http_date(text: Seq<char>) -> Option<i64>;

/// `httpdate::parse_http_date`: the date it reads is a function of the text. The dates it
/// knows lie in the years 1970 to 9999, in whole seconds.
#[verifier::external_body]
pub(crate) fn parse_http_date(text: &str) -> (r: Option<i64>)
    ensures
        r == http_date(text@),
{
    let date = httpdate::parse_http_date(text).ok()?;
    Some(date.duration_since(UNIX_EPOCH).ok()?.as_secs() as i64)
}

/// The wait until a date, in nanoseconds; none at all where the date is not after `now`.
pub open spec fn wait_until(date_secs: int, now: int) -> nat {
    if date_secs * 1_000_000_000 > now {
        (date_secs * 1_000_000_000 - now) as nat
    } else {
        0
    }
}

/// The wait that a trimmed `Retry-After` value asks for at `now`, given what it reads as a
/// date: a number of seconds, in digits alone, or else the time until that date.
pub open spec fn wait_for(value: Seq<char>, date: Option<i64>, now: int) -> Option<nat> {
    match crate::text::unsigned_value(value) {
        Some(secs) => Some((secs * 1_000_000_000) as nat),
        None => match date {
            Some(at) => Some(wait_until(at as int, now)),
            None => None,
        },
    }
}

/// The wait that a `Retry-After` value asks for at `now`.
pub open spec fn retry_wait(value: Seq<char>, now: int) -> Option<nat> {
    let v = crate::text::trim(value);
    wait_for(v, http_date(v), now)
}

/// The wait until `date`, a point in whole seconds since the Unix epoch; zero for a past date.
pub fn wait_until_date(date: i64, now: UnixTime) -> (r: Duration)
    ensures
        crate::time::duration_nanos(r) == wait_until(date as int, now@),
{
    UnixTime::from_secs(date).since(now)
}

/// Reads a `Retry-After` value: a number of seconds (digits alone, without a sign), or an HTTP
/// date that is turned into the time left until then. `None` where it is neither.
///
/// White space around the value is ignored; a date in the past asks for no wait. The current
/// time is handed in, so that the result is determined by the arguments.
pub fn parse_retry_after_at(value: &str, now: UnixTime) -> (r: Option<Duration>)
    ensures
        crate::time::span_nanos(r) == retry_wait(value@, now@),
{
    let chars: Vec<char> = trimmed(value);
    match parse_unsigned(&chars) {
        Some(secs) => Some(duration_of(secs, 0)),
        None => {
            let text: String = crate::text::to_text(&chars);
            match parse_http_date(text.as_str()) {
                Some(date) => Some(wait_until_date(date, now)),
                None => None,
            }
        },
    }
}

/// Whether a byte may stand in a header value that is read as text: visible ASCII, space or
/// tab.
pub open spec fn is_header_text_byte(b: u8) -> bool {
    (32 <= b && b < 127) || b == 9
}

/// A header value as text: its bytes as ASCII characters, where all of them may be shown.
pub open spec fn header_text(raw: Seq<u8>) -> Option<Seq<char>> {
    if forall|i: int| 0 <= i < raw.len() ==> is_header_text_byte(#[trigger] raw[i]) {
        Some(raw.map_values(|b: u8| b as char))
    } else {
        None
    }
}

/// A header value as text; `None` where a byte is not visible ASCII, space or tab.
pub fn read_header_text(raw: &Vec<u8>) -> (r: Option<String>)
    ensures
        match r {
            Some(s) => header_text(raw@) == Some(s@),
            None => header_text(raw@) is None,
        },
{
    let mut out: String = String::new();
    let mut i: usize = 0;
    while i < raw.len()
        invariant
            i <= raw.len(),
            forall|j: int| 0 <= j < i ==> is_header_text_byte(#[trigger] raw@[j]),
            out@ == raw@.take(i as int).map_values(|b: u8| b as char),
        decreases raw.len() - i,
    {
        let b: u8 = raw[i];
        if !((32 <= b && b < 127) || b == 9) {
            assert(!is_header_text_byte(raw@[i as int]));
            return None;
        }
        out.push(b as char);
        i += 1;
        assert(out@ =~= raw@.take(i as int).map_values(|b: u8| b as char));
    }
    assert(raw@.take(raw@.len() as int) =~= raw@);
    Some(out)
}

/// The wait that a raw `Retry-After` header asks for, where there is one.
pub open spec fn header_wait(raw: Option<Seq<u8>>, now: int) -> Option<nat> {
    match raw {
        Some(bytes) => match header_text(bytes) {
            Some(text) => retry_wait(text, now),
            None => None,
        },
        None => None,
    }
}

/// The wait that the raw `Retry-After` header of a response asks for; none where the header
/// is absent, is not text or cannot be read.
pub fn retry_after_header(raw: &Option<Vec<u8>>, now: UnixTime) -> (r: Option<Duration>)
    ensures
        crate::time::span_nanos(r) == header_wait(
            match *raw {
                Some(bytes) => Some(bytes@),
                None => None,
            },
            now@,
        ),
{
    match raw {
        Some(bytes) => match read_header_text(bytes) {
            Some(text) => parse_retry_after_at(text.as_str(), now),
            None => None,
        },
        None => None,
    }
}

/// Every number of seconds that fits 64 bits comes back from its decimal numeral, whatever
/// the time.
pub proof fn law_seconds_are_read_back(secs: u64, now: int)
    ensures
        retry_wait(crate::text::decimal(secs as nat), now) == Some((secs * 1_000_000_000) as nat),
{
    crate::text::lemma_decimal_round_trip(secs);
    crate::text::lemma_decimal_is_trimmed(secs as nat);
}

/// A value with a sign in front is no number of seconds: it asks for a wait only where it
/// reads as a date.
pub proof fn law_signed_numbers_are_refused(value: Seq<char>, now: int)
    requires
        value.len() > 0,
        value[0] == '+' || value[0] == '-',
    ensures
        crate::text::unsigned_value(value) is None,
        crate::text::trim(value) == value && http_date(value) is None ==> retry_wait(value, now)
            is None,
{
    assert(!crate::text::is_digit(value[0]));
}

/// White space around a value changes nothing.
pub proof fn law_padding_is_ignored(pre: Seq<char>, value: Seq<char>, post: Seq<char>, now: int)
    requires
        crate::text::is_blank(pre),
        crate::text::is_blank(post),
    ensures
        retry_wait(pre + value + post, now) == retry_wait(value, now),
{
    crate::text::lemma_trim_ignores_padding(pre, value, post);
}

/// A value that reads as a date, and not as a number, asks for no wait once the date is past,
/// and otherwise for exactly the time that is left.
pub proof fn law_dates_are_clamped(value: Seq<char>, now: int)
    requires
        crate::text::unsigned_value(crate::text::trim(value)) is None,
        http_date(crate::text::trim(value)) is Some,
    ensures
        retry_wait(value, now) is Some,
        http_date(crate::text::trim(value))->0 * 1_000_000_000 <= now ==> retry_wait(value, now)
            == Some(0nat),
        http_date(crate::text::trim(value))->0 * 1_000_000_000 > now ==> now + (retry_wait(
            value,
            now,
        )->0) == http_date(crate::text::trim(value))->0 * 1_000_000_000,
{
}

/// A trimmed value that is a number of seconds asks for just that many, to the nanosecond; one
/// that is none, but reads as a date, for the time until then, and for none once it is past;
/// any other asks for nothing.
pub proof fn law_what_a_value_asks_for(value: Seq<char>, now: int)
    ensures
        ({
            let v = crate::text::trim(value);
            match crate::text::unsigned_value(v) {
                Some(secs) => retry_wait(value, now) == Some((secs * 1_000_000_000) as nat),
                None => match http_date(v) {
                    Some(at) => retry_wait(value, now) matches Some(wait) && wait == if at
                        * 1_000_000_000 - now > 0 {
                        at * 1_000_000_000 - now
                    } else {
                        0
                    },
                    None => retry_wait(value, now) is None,
                },
            }
        }),
{
}

/// A raw header asks for what the text asks for that its bytes spell, where they are all
/// visible ASCII, spaces or tabs; a header with any other byte, and no header, ask for nothing.
pub proof fn law_a_header_asks_for_what_it_spells(raw: Seq<u8>, text: Seq<char>, now: int)
    requires
        text.len() == raw.len(),
        forall|i: int| 0 <= i < raw.len() ==> #[trigger] text[i] as int == raw[i] as int,
    ensures
        (forall|i: int| 0 <= i < raw.len() ==> 32 <= #[trigger] raw[i] < 127 || raw[i] == 9)
            ==> header_wait(Some(raw), now) == retry_wait(text, now),
        !(forall|i: int| 0 <= i < raw.len() ==> 32 <= #[trigger] raw[i] < 127 || raw[i] == 9)
            ==> header_wait(Some(raw), now) is None,
        header_wait(None, now) is None,
{
    if forall|i: int| 0 <= i < raw.len() ==> 32 <= #[trigger] raw[i] < 127 || raw[i] == 9 {
        assert forall|i: int| 0 <= i < raw.len() implies is_header_text_byte(#[trigger] raw[i]) by {
            assert(32 <= raw[i] < 127 || raw[i] == 9);
        }
        let read = raw.map_values(|b: u8| b as char);
        assert(read =~= text) by {
            assert forall|i: int| 0 <= i < raw.len() implies read[i] == text[i] by {
                assert(text[i] as int == raw[i] as int);
            }
        }
        assert(header_text(raw) == Some(read));
    } else {
        let i = choose|i: int|
            0 <= i < raw.len() && !(32 <= #[trigger] raw[i] < 127 || raw[i] == 9);
        assert(!is_header_text_byte(raw[i]));
    }
}

/// A raw header that spells the decimal numeral of a number of seconds asks for just that
/// many, whatever the number and the time.
pub proof fn law_seconds_in_a_header_are_read_back(secs: u64, raw: Seq<u8>, now: int)
    requires
        raw.len() == crate::text::decimal(secs as nat).len(),
        forall|i: int|
            0 <= i < raw.len() ==> #[trigger] raw[i] as int == crate::text::decimal(
                secs as nat,
            )[i] as int,
    ensures
        header_wait(Some(raw), now) == Some((secs * 1_000_000_000) as nat),
{
    let text = crate::text::decimal(secs as nat);
    crate::text::lemma_decimal_is_digits(secs as nat);
    assert forall|i: int| 0 <= i < raw.len() implies 32 <= #[trigger] raw[i] < 127 || raw[i]
        == 9 by {
        assert(raw[i] as int == text[i] as int);
        assert(crate::text::is_digit(text[i]));
    }
    assert forall|i: int| 0 <= i < raw.len() implies #[trigger] text[i] as int
        == raw[i] as int by {
        assert(raw[i] as int == text[i] as int);
    }
    law_a_header_asks_for_what_it_spells(raw, text, now);
    law_seconds_are_read_back(secs, now);
}

/// A raw header is text exactly where its bytes are all visible ASCII, spaces or tabs, and the
/// text is then those bytes, character for character.
pub proof fn law_header_text_is_its_bytes(raw: Seq<u8>)
    ensures
        header_text(raw) is Some <==> forall|i: int|
            0 <= i < raw.len() ==> 32 <= #[trigger] raw[i] < 127 || raw[i] == 9,
        header_text(raw) matches Some(text) ==> text.len() == raw.len() && forall|i: int|
            0 <= i < raw.len() ==> #[trigger] text[i] as int == raw[i] as int,
{
    if forall|i: int| 0 <= i < raw.len() ==> is_header_text_byte(#[trigger] raw[i]) {
        assert forall|i: int| 0 <= i < raw.len() implies 32 <= #[trigger] raw[i] < 127 || raw[i]
            == 9 by {
            assert(is_header_text_byte(raw[i]));
        }
    } else {
        let i = choose|i: int| 0 <= i < raw.len() && !is_header_text_byte(#[trigger] raw[i]);
        assert(!(32 <= raw[i] < 127 || raw[i] == 9));
    }
}

/// The wait until a date is the time that is left, to the nanosecond, and none once the date
/// is past.
pub proof fn law_wait_until_a_date_is_what_is_left(date_secs: int, now: int)
    ensures
        now < date_secs * 1_000_000_000 ==> now + wait_until(date_secs, now) == date_secs
            * 1_000_000_000,
        now >= date_secs * 1_000_000_000 ==> wait_until(date_secs, now) == 0,
{
}

} // verus!
