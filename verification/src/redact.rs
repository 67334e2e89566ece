//! Redaction: what of a header or a body may be shown.

use crate::text::{has_text, lower_chars, push_decimal, quoted, same_text};
use vstd::prelude::*;
use vstd::string::StringExecFns;

verus! {

// ---------------------------------------------------------------------------
// Header names
// ---------------------------------------------------------------------------

/// Whether a lower-case header name is one of the known credential headers.
pub open spec fn is_credential_header(n: Seq<char>) -> bool {
    ||| n == "authorization"@
    ||| n == "proxy-authorization"@
    ||| n == "cookie"@
    ||| n == "set-cookie"@
    ||| n == "x-api-key"@
    ||| n == "x-auth-token"@
    ||| n == "ok-access-key"@
    ||| n == "ok-access-sign"@
    ||| n == "ok-access-timestamp"@
    ||| n == "ok-access-passphrase"@
}

/// Whether a lower-case header name has a part that speaks of a credential.
pub open spec fn has_credential_word(n: Seq<char>) -> bool {
    ||| crate::text::contains_text(n, "token"@)
    ||| crate::text::contains_text(n, "secret"@)
    ||| crate::text::contains_text(n, "password"@)
    ||| crate::text::contains_text(n, "api-key"@)
    ||| crate::text::contains_text(n, "apikey"@)
    ||| crate::text::contains_text(n, "passphrase"@)
}

/// Whether the value of a header of this name must not be shown.
pub open spec fn is_sensitive(name: Seq<char>) -> bool {
    let n = crate::text::ascii_lower(name);
    is_credential_header(n) || has_credential_word(n)
}

/// Whether a header name is sensitive, whatever its letter case: a known credential header,
/// or a name with `token`, `secret`, `password`, `api-key`, `apikey` or `passphrase` in it.
pub fn is_sensitive_header_name(name: &str) -> (r: bool)
    ensures
        r == is_sensitive(name@),
{
    let n: Vec<char> = lower_chars(name);
    same_text(&n, "authorization") || same_text(&n, "proxy-authorization") || same_text(
        &n,
        "cookie",
    ) || same_text(&n, "set-cookie") || same_text(&n, "x-api-key") || same_text(
        &n,
        "x-auth-token",
    ) || same_text(&n, "ok-access-key") || same_text(&n, "ok-access-sign") || same_text(
        &n,
        "ok-access-timestamp",
    ) || same_text(&n, "ok-access-passphrase") || has_text(&n, "token") || has_text(&n, "secret")
        || has_text(&n, "password") || has_text(&n, "api-key") || has_text(&n, "apikey")
        || has_text(&n, "passphrase")
}

/// Letter case never decides whether a header name is sensitive.
pub proof fn law_sensitivity_ignores_case(a: Seq<char>, b: Seq<char>)
    requires
        crate::text::ascii_lower(a) == crate::text::ascii_lower(b),
    ensures
        is_sensitive(a) == is_sensitive(b),
{
}

/// A credential word keeps a header name sensitive whatever stands before and after it.
pub proof fn law_credential_word_in_any_context(pre: Seq<char>, name: Seq<char>, post: Seq<char>)
    requires
        has_credential_word(crate::text::ascii_lower(name)),
    ensures
        is_sensitive(pre + name + post),
{
    let n = crate::text::ascii_lower(name);
    let a = crate::text::ascii_lower(pre);
    let b = crate::text::ascii_lower(post);
    assert(crate::text::ascii_lower(pre + name + post) =~= a + n + b);
    if crate::text::contains_text(n, "token"@) {
        crate::text::lemma_contains_in_context(a, n, b, "token"@);
    } else if crate::text::contains_text(n, "secret"@) {
        crate::text::lemma_contains_in_context(a, n, b, "secret"@);
    } else if crate::text::contains_text(n, "password"@) {
        crate::text::lemma_contains_in_context(a, n, b, "password"@);
    } else if crate::text::contains_text(n, "api-key"@) {
        crate::text::lemma_contains_in_context(a, n, b, "api-key"@);
    } else if crate::text::contains_text(n, "apikey"@) {
        crate::text::lemma_contains_in_context(a, n, b, "apikey"@);
    } else {
        crate::text::lemma_contains_in_context(a, n, b, "passphrase"@);
    }
}

// ---------------------------------------------------------------------------
// Headers
// ---------------------------------------------------------------------------

/// The characters of header pairs.
pub open spec fn header_pairs(h: Seq<(String, String)>) -> Seq<(Seq<char>, Seq<char>)> {
    h.map_values(|p: (String, String)| (p.0@, p.1@))
}

/// The value that is shown for a header.
pub open spec fn shown_value(name: Seq<char>, value: Seq<char>) -> Seq<char> {
    if is_sensitive(name) {
        "***"@
    } else {
        value
    }
}

/// One header as it is shown.
pub open spec fn shown_header(h: (Seq<char>, Seq<char>)) -> Seq<char> {
    "("@ + crate::text::quoted_text(h.0) + ", "@ + crate::text::quoted_text(
        shown_value(h.0, h.1),
    ) + ")"@
}

/// Headers as they are shown, separated by commas.
pub open spec fn shown_entries(h: Seq<(Seq<char>, Seq<char>)>) -> Seq<char>
    decreases h.len(),
{
    if h.len() == 0 {
        Seq::empty()
    } else if h.len() == 1 {
        shown_header(h[0])
    } else {
        shown_entries(h.drop_last()) + ", "@ + shown_header(h.last())
    }
}

/// The header list as it is shown.
pub open spec fn shown_headers(h: Seq<(Seq<char>, Seq<char>)>) -> Seq<char> {
    "["@ + shown_entries(h) + "]"@
}

/// The header list with the value of every sensitive header masked.
pub fn redacted_headers(headers: &Vec<(String, String)>) -> (r: Vec<(String, String)>)
    ensures
        r.len() == headers.len(),
        forall|i: int|
            0 <= i < headers.len() ==> (#[trigger] r[i]).0@ == headers[i].0@ && r[i].1@
                == shown_value(headers[i].0@, headers[i].1@),
{
    let mut out: Vec<(String, String)> = Vec::new();
    let mut i: usize = 0;
    while i < headers.len()
        invariant
            i <= headers.len(),
            out.len() == i,
            forall|j: int|
                0 <= j < i ==> (#[trigger] out[j]).0@ == headers[j].0@ && out[j].1@ == shown_value(
                    headers[j].0@,
                    headers[j].1@,
                ),
        decreases headers.len() - i,
    {
        let name: String = headers[i].0.clone();
        let value: String = if is_sensitive_header_name(name.as_str()) {
            "***".to_owned()
        } else {
            headers[i].1.clone()
        };
        out.push((name, value));
        i += 1;
    }
    out
}

/// The header list as text, the value of every sensitive header masked.
pub fn headers_text(headers: &Vec<(String, String)>) -> (r: String)
    ensures
        r@ == shown_headers(header_pairs(headers@)),
{
    let ghost pairs = header_pairs(headers@);
    let safe: Vec<(String, String)> = redacted_headers(headers);
    let mut out: String = "[".to_owned();
    let mut i: usize = 0;
    assert(out@ =~= "["@ + shown_entries(pairs.take(0)));
    while i < safe.len()
        invariant
            i <= safe.len(),
            safe.len() == headers.len(),
            pairs == header_pairs(headers@),
            forall|j: int|
                0 <= j < headers.len() ==> (#[trigger] safe[j]).0@ == headers[j].0@ && safe[j].1@
                    == shown_value(headers[j].0@, headers[j].1@),
            out@ == "["@ + shown_entries(pairs.take(i as int)),
        decreases safe.len() - i,
    {
        let ghost before = out@;
        if i > 0 {
            out.append(", ");
        }
        let name: String = quoted(safe[i].0.as_str());
        let value: String = quoted(safe[i].1.as_str());
        out.append("(");
        out.append(name.as_str());
        out.append(", ");
        out.append(value.as_str());
        out.append(")");
        proof {
            let next = pairs.take(i + 1);
            assert(next.drop_last() =~= pairs.take(i as int));
            assert(next.last() == pairs[i as int]);
            assert(pairs[i as int] == (headers[i as int].0@, headers[i as int].1@));
            if i == 0 {
                assert(pairs.take(0) =~= Seq::empty());
                assert(next[0] == pairs[0]);
            }
            assert(out@ =~= "["@ + shown_entries(next));
        }
        i += 1;
    }
    assert(pairs.take(pairs.len() as int) =~= pairs);
    out.append("]");
    assert(out@ =~= shown_headers(pairs));
    out
}

proof fn lemma_entries_hide_sensitive_values(
    a: Seq<(Seq<char>, Seq<char>)>,
    b: Seq<(Seq<char>, Seq<char>)>,
)
    requires
        same_public_headers(a, b),
    ensures
        shown_entries(a) == shown_entries(b),
    decreases a.len(),
{
    if a.len() > 0 {
        assert(shown_header(a.last()) == shown_header(b.last()));
        if a.len() > 1 {
            lemma_entries_hide_sensitive_values(a.drop_last(), b.drop_last());
        }
    }
}

/// Whether two header lists have the same names in the same order, and the same values under
/// every name that is not sensitive.
pub open spec fn same_public_headers(
    a: Seq<(Seq<char>, Seq<char>)>,
    b: Seq<(Seq<char>, Seq<char>)>,
) -> bool {
    &&& a.len() == b.len()
    &&& forall|i: int|
        #![trigger a[i], b[i]]
        0 <= i < a.len() ==> a[i].0 == b[i].0 && (is_sensitive(a[i].0) || a[i].1 == b[i].1)
}

/// Header lists that differ in the values of sensitive headers only are shown as the same
/// text.
pub proof fn law_headers_hide_sensitive_values(
    a: Seq<(Seq<char>, Seq<char>)>,
    b: Seq<(Seq<char>, Seq<char>)>,
)
    requires
        same_public_headers(a, b),
    ensures
        shown_headers(a) == shown_headers(b),
{
    lemma_entries_hide_sensitive_values(a, b);
}

// ---------------------------------------------------------------------------
// Bodies
// ---------------------------------------------------------------------------

/// An optional body as it is shown: its length.
pub open spec fn shown_body(len: Option<nat>) -> Seq<char> {
    match len {
        Some(n) => "Some(<"@ + crate::text::decimal(n) + " bytes>)"@,
        None => "None"@,
    }
}

/// The shown form of a body of the given length.
pub fn body_text(len: Option<usize>) -> (r: String)
    ensures
        r@ == shown_body(
            match len {
                Some(n) => Some(n as nat),
                None => None,
            },
        ),
{
    match len {
        Some(n) => {
            let mut out: String = "Some(<".to_owned();
            push_decimal(&mut out, n as u64);
            out.append(" bytes>)");
            out
        },
        None => "None".to_owned(),
    }
}

// ---------------------------------------------------------------------------
// Laws in plain terms
// ---------------------------------------------------------------------------

/// A header name is sensitive exactly where, in lower case, it is one of the ten names of
/// credential headers or has one of the six credential words somewhere in it.
pub proof fn law_what_makes_a_header_sensitive(name: Seq<char>)
    ensures
        is_sensitive(name) <==> {
            let n = crate::text::ascii_lower(name);
            let has = |w: Seq<char>|
                exists|pre: Seq<char>, post: Seq<char>| n == #[trigger] (pre + w + post);
            ||| n == "authorization"@ || n == "proxy-authorization"@ || n == "cookie"@
            ||| n == "set-cookie"@ || n == "x-api-key"@ || n == "x-auth-token"@
            ||| n == "ok-access-key"@ || n == "ok-access-sign"@
            ||| n == "ok-access-timestamp"@ || n == "ok-access-passphrase"@
            ||| has("token"@) || has("secret"@) || has("password"@)
            ||| has("api-key"@) || has("apikey"@) || has("passphrase"@)
        },
{
    let n = crate::text::ascii_lower(name);
    crate::text::law_holding_a_text_is_having_it_between(n, "token"@);
    crate::text::law_holding_a_text_is_having_it_between(n, "secret"@);
    crate::text::law_holding_a_text_is_having_it_between(n, "password"@);
    crate::text::law_holding_a_text_is_having_it_between(n, "api-key"@);
    crate::text::law_holding_a_text_is_having_it_between(n, "apikey"@);
    crate::text::law_holding_a_text_is_having_it_between(n, "passphrase"@);
}

/// The names and values of headers are those that were given, one for one.
pub proof fn law_header_pairs_are_the_headers(h: Seq<(String, String)>)
    ensures
        header_pairs(h).len() == h.len(),
        forall|i: int|
            #![trigger header_pairs(h)[i]]
            0 <= i < h.len() ==> header_pairs(h)[i].0 == h[i].0@ && header_pairs(h)[i].1
                == h[i].1@,
{
}

/// A header is shown with its name, and with its value or, where the name is sensitive, three
/// stars in its place.
pub proof fn law_header_is_shown_or_masked(name: Seq<char>, value: Seq<char>)
    ensures
        is_sensitive(name) ==> shown_value(name, value) == "***"@,
        !is_sensitive(name) ==> shown_value(name, value) == value,
        shown_header((name, value)) == "("@ + crate::text::quoted_text(name) + ", "@
            + crate::text::quoted_text(
            if is_sensitive(name) {
                "***"@
            } else {
                value
            },
        ) + ")"@,
{
}

/// Headers are shown one behind the other, in brackets and with commas between them.
pub proof fn law_headers_are_listed_in_order(
    h: Seq<(Seq<char>, Seq<char>)>,
    last: (Seq<char>, Seq<char>),
)
    ensures
        shown_entries(Seq::empty()) == Seq::<char>::empty(),
        shown_entries(h.push(last)) == if h.len() == 0 {
            shown_header(last)
        } else {
            shown_entries(h) + ", "@ + shown_header(last)
        },
        shown_headers(h) == "["@ + shown_entries(h) + "]"@,
{
    assert(h.push(last).drop_last() =~= h);
    assert(h.push(last).last() == last);
    if h.len() == 0 {
        assert(h.push(last)[0] == last);
    }
}

/// Of a body its length is shown, in decimal digits, or that there is none.
pub proof fn law_body_is_shown_as_its_length(n: nat)
    ensures
        shown_body(Some(n)) == "Some(<"@ + crate::text::decimal(n) + " bytes>)"@,
        shown_body(None) == "None"@,
{
}

} // verus!
