//! Text primitives shared by the parsers and the redacting formatters.
//!
//! A string is modelled by its sequence of characters. Everything here works on that
//! model and is proved, but for what `String::push` does, how `Debug` quotes a string and how
//! UTF-8 is decoded.

use vstd::prelude::*;

verus! {

/// `String::push`: the string grows by exactly the given character.
pub assume_specification[ String::push ](s: &mut String, ch: char)
    ensures
        final(s)@ == old(s)@.push(ch),
;

/// The text that `Debug` prints for a string: quoted and escaped.
pub uninterp spec fn quoted_text(s: Seq<char>) -> Seq<char>;

/// `Debug` of a `str`: the quoted and escaped text is a function of the string.
#[verifier::external_body]
pub(crate) fn quoted(s: &str) -> (r: String)
    ensures
        r@ == quoted_text(s@),
{
    format!("{:?}", s)
}

/// `std::str::from_utf8`: the text of `bytes`, where they are well-formed UTF-8.
#[verifier::external_body]
pub(crate) fn utf8_text(bytes: &[u8]) -> (r: Option<&str>)
    ensures
        r is Some <==> vstd::utf8::valid_utf8(bytes@),
        r matches Some(s) ==> s@ == vstd::utf8::decode_utf8(bytes@),
{
    std::str::from_utf8(bytes).ok()
}

// ---------------------------------------------------------------------------
// Letter case
// ---------------------------------------------------------------------------

/// The ASCII lower-case form of one character; other characters are kept.
pub open spec fn lower_char(c: char) -> char {
    if 'A' <= c && c <= 'Z' {
        ((c as u8) + 32) as char
    } else {
        c
    }
}

/// The ASCII upper-case form of one character; other characters are kept.
pub open spec fn upper_char(c: char) -> char {
    if 'a' <= c && c <= 'z' {
        ((c as u8) - 32) as char
    } else {
        c
    }
}

/// `s` with every ASCII letter in lower case.
pub open spec fn ascii_lower(s: Seq<char>) -> Seq<char> {
    s.map_values(|c: char| lower_char(c))
}

/// `s` with every ASCII letter in upper case.
pub open spec fn ascii_upper(s: Seq<char>) -> Seq<char> {
    s.map_values(|c: char| upper_char(c))
}

/// The lower-case characters of `s`.
pub(crate) fn lower_chars(s: &str) -> (r: Vec<char>)
    ensures
        r@ == ascii_lower(s@),
{
    let mut out: Vec<char> = Vec::new();
    for c in it: s.chars()
        invariant
            out@ == ascii_lower(it.seq().take(it.index() as int)),
            it.seq() == s@,
    {
        let low: char = if 'A' <= c && c <= 'Z' {
            ((c as u8) + 32) as char
        } else {
            c
        };
        out.push(low);
    }
    out
}

/// `s` in upper case.
pub(crate) fn to_upper(s: &str) -> (r: String)
    ensures
        r@ == ascii_upper(s@),
{
    let mut out: String = String::new();
    for c in it: s.chars()
        invariant
            out@ == ascii_upper(it.seq().take(it.index() as int)),
            it.seq() == s@,
    {
        let up: char = if 'a' <= c && c <= 'z' {
            ((c as u8) - 32) as char
        } else {
            c
        };
        out.push(up);
    }
    out
}

// ---------------------------------------------------------------------------
// Comparison and search
// ---------------------------------------------------------------------------

/// The characters of `s`, in order.
pub(crate) fn to_chars(s: &str) -> (r: Vec<char>)
    ensures
        r@ == s@,
{
    let mut out: Vec<char> = Vec::new();
    for c in it: s.chars()
        invariant
            out@ == it.seq().take(it.index() as int),
    {
        out.push(c);
    }
    out
}

/// The string of the characters `chars`.
pub(crate) fn to_text(chars: &Vec<char>) -> (r: String)
    ensures
        r@ == chars@,
{
    let mut out: String = String::new();
    let mut i: usize = 0;
    while i < chars.len()
        invariant
            i <= chars.len(),
            out@ == chars@.take(i as int),
        decreases chars.len() - i,
    {
        out.push(chars[i]);
        i += 1;
        assert(out@ =~= chars@.take(i as int));
    }
    assert(chars@.take(chars@.len() as int) =~= chars@);
    out
}

/// Whether two lists of characters are the same.
pub(crate) fn same_chars(a: &Vec<char>, b: &Vec<char>) -> (r: bool)
    ensures
        r == (a@ == b@),
{
    if a.len() != b.len() {
        return false;
    }
    let mut i: usize = 0;
    while i < a.len()
        invariant
            i <= a.len(),
            a.len() == b.len(),
            forall|j: int| 0 <= j < i ==> a@[j] == b@[j],
        decreases a.len() - i,
    {
        if a[i] != b[i] {
            return false;
        }
        i += 1;
    }
    assert(a@ =~= b@);
    true
}

/// Whether the characters `a` spell `b`.
pub(crate) fn same_text(a: &Vec<char>, b: &str) -> (r: bool)
    ensures
        r == (a@ == b@),
{
    same_chars(a, &to_chars(b))
}

/// Whether `needle` stands in `hay` at position `i`.
pub open spec fn occurs_at(hay: Seq<char>, needle: Seq<char>, i: int) -> bool {
    &&& 0 <= i
    &&& i + needle.len() <= hay.len()
    &&& hay.subrange(i, i + needle.len()) == needle
}

/// Whether `needle` stands somewhere in `hay`.
pub open spec fn contains_text(hay: Seq<char>, needle: Seq<char>) -> bool {
    exists|i: int| #[trigger] occurs_at(hay, needle, i)
}

fn occurs_here(hay: &Vec<char>, needle: &Vec<char>, at: usize) -> (r: bool)
    requires
        at + needle.len() <= hay.len(),
    ensures
        r == occurs_at(hay@, needle@, at as int),
{
    let mut j: usize = 0;
    while j < needle.len()
        invariant
            j <= needle.len(),
            at + needle.len() <= hay.len(),
            forall|k: int| 0 <= k < j ==> hay@[at + k] == needle@[k],
        decreases needle.len() - j,
    {
        if hay[at + j] != needle[j] {
            assert(hay@.subrange(at as int, at + needle@.len())[j as int] != needle@[j as int]);
            return false;
        }
        j += 1;
    }
    assert(hay@.subrange(at as int, at + needle@.len()) =~= needle@);
    true
}

/// Whether `hay` contains `needle`.
pub(crate) fn has_text(hay: &Vec<char>, needle: &str) -> (r: bool)
    ensures
        r == contains_text(hay@, needle@),
{
    let n: Vec<char> = to_chars(needle);
    if n.len() > hay.len() {
        return false;
    }
    let mut i: usize = 0;
    let end: usize = hay.len() - n.len();
    while i <= end
        invariant
            i <= end + 1,
            end + n.len() == hay.len(),
            n@ == needle@,
            forall|k: int| 0 <= k < i ==> !#[trigger] occurs_at(hay@, n@, k),
        decreases end + 1 - i,
    {
        if occurs_here(hay, &n, i) {
            return true;
        }
        if i == end {
            return false;
        }
        i += 1;
    }
    false
}

/// What contains a text still contains it between any two others.
pub(crate) proof fn lemma_contains_in_context(pre: Seq<char>, s: Seq<char>, post: Seq<char>, t: Seq<char>)
    requires
        contains_text(s, t),
    ensures
        contains_text(pre + s + post, t),
{
    let i = choose|i: int| #[trigger] occurs_at(s, t, i);
    let whole = pre + s + post;
    assert(whole.subrange(i + pre.len(), i + pre.len() + t.len()) =~= s.subrange(i, i + t.len()));
    assert(occurs_at(whole, t, i + pre.len()));
}

// ---------------------------------------------------------------------------
// Trimming
// ---------------------------------------------------------------------------

/// The characters with the Unicode property `White_Space`.
pub open spec fn is_white_space(c: char) -> bool {
    ||| '\u{9}' <= c && c <= '\u{D}'
    ||| c == '\u{20}'
    ||| c == '\u{85}'
    ||| c == '\u{A0}'
    ||| c == '\u{1680}'
    ||| '\u{2000}' <= c && c <= '\u{200A}'
    ||| c == '\u{2028}'
    ||| c == '\u{2029}'
    ||| c == '\u{202F}'
    ||| c == '\u{205F}'
    ||| c == '\u{3000}'
}

/// Whether every character of `s` is white space.
pub open spec fn is_blank(s: Seq<char>) -> bool {
    forall|i: int| 0 <= i < s.len() ==> is_white_space(#[trigger] s[i])
}

/// `s` without its leading white space.
pub open spec fn trim_start(s: Seq<char>) -> Seq<char>
    decreases s.len(),
{
    if s.len() > 0 && is_white_space(s[0]) {
        trim_start(s.skip(1))
    } else {
        s
    }
}

/// `s` without its trailing white space.
pub open spec fn trim_end(s: Seq<char>) -> Seq<char>
    decreases s.len(),
{
    if s.len() > 0 && is_white_space(s.last()) {
        trim_end(s.drop_last())
    } else {
        s
    }
}

/// `s` without white space at either end.
pub open spec fn trim(s: Seq<char>) -> Seq<char> {
    trim_end(trim_start(s))
}

fn white_space(c: char) -> (r: bool)
    ensures
        r == is_white_space(c),
{
    ('\u{9}' <= c && c <= '\u{D}') || c == '\u{20}' || c == '\u{85}' || c == '\u{A0}' || c
        == '\u{1680}' || ('\u{2000}' <= c && c <= '\u{200A}') || c == '\u{2028}' || c
        == '\u{2029}' || c == '\u{202F}' || c == '\u{205F}' || c == '\u{3000}'
}

/// The characters of `s` without white space at either end.
pub(crate) fn trimmed(s: &str) -> (r: Vec<char>)
    ensures
        r@ == trim(s@),
{
    let all: Vec<char> = to_chars(s);
    let mut start: usize = 0;
    assert(all@.skip(0) =~= all@);
    while start < all.len() && white_space(all[start])
        invariant
            start <= all.len(),
            trim_start(all@) == trim_start(all@.skip(start as int)),
        decreases all.len() - start,
    {
        assert(all@.skip(start as int).skip(1) =~= all@.skip(start + 1));
        start += 1;
    }
    let mut end: usize = all.len();
    let ghost head = all@.skip(start as int);
    assert(all@.subrange(start as int, end as int) =~= head);
    while end > start && white_space(all[end - 1])
        invariant
            start <= end <= all.len(),
            trim_end(head) == trim_end(all@.subrange(start as int, end as int)),
        decreases end,
    {
        assert(all@.subrange(start as int, end as int).drop_last() =~= all@.subrange(
            start as int,
            end - 1,
        ));
        end -= 1;
    }
    let mut out: Vec<char> = Vec::new();
    let mut i: usize = start;
    while i < end
        invariant
            start <= i <= end <= all.len(),
            out@ == all@.subrange(start as int, i as int),
        decreases end - i,
    {
        out.push(all[i]);
        i += 1;
        assert(out@ =~= all@.subrange(start as int, i as int));
    }
    out
}

proof fn lemma_trim_start_blank_prefix(a: Seq<char>, s: Seq<char>)
    requires
        is_blank(a),
    ensures
        trim_start(a + s) == trim_start(s),
    decreases a.len(),
{
    if a.len() == 0 {
        assert(a + s =~= s);
    } else {
        assert((a + s)[0] == a[0]);
        assert((a + s).skip(1) =~= a.skip(1) + s);
        assert forall|i: int| 0 <= i < a.skip(1).len() implies is_white_space(
            #[trigger] a.skip(1)[i],
        ) by {
            assert(a.skip(1)[i] == a[i + 1]);
        }
        lemma_trim_start_blank_prefix(a.skip(1), s);
    }
}

proof fn lemma_trim_end_blank_suffix(s: Seq<char>, b: Seq<char>)
    requires
        is_blank(b),
    ensures
        trim_end(s + b) == trim_end(s),
    decreases b.len(),
{
    if b.len() == 0 {
        assert(s + b =~= s);
    } else {
        assert((s + b).last() == b.last());
        assert((s + b).drop_last() =~= s + b.drop_last());
        assert forall|i: int| 0 <= i < b.drop_last().len() implies is_white_space(
            #[trigger] b.drop_last()[i],
        ) by {
            assert(b.drop_last()[i] == b[i]);
        }
        lemma_trim_end_blank_suffix(s, b.drop_last());
    }
}

proof fn lemma_trim_start_with_suffix(s: Seq<char>, b: Seq<char>)
    requires
        is_blank(b),
    ensures
        trim_end(trim_start(s + b)) == trim_end(trim_start(s)),
    decreases s.len(),
{
    if s.len() == 0 {
        let none = Seq::<char>::empty();
        assert(s + b =~= b + none);
        lemma_trim_start_blank_prefix(b, none);
        assert(s =~= none);
    } else if is_white_space(s[0]) {
        assert((s + b)[0] == s[0]);
        assert((s + b).skip(1) =~= s.skip(1) + b);
        lemma_trim_start_with_suffix(s.skip(1), b);
    } else {
        assert((s + b)[0] == s[0]);
        lemma_trim_end_blank_suffix(s, b);
    }
}

/// White space around a text does not change what trimming leaves of it.
pub(crate) proof fn lemma_trim_ignores_padding(a: Seq<char>, s: Seq<char>, b: Seq<char>)
    requires
        is_blank(a),
        is_blank(b),
    ensures
        trim(a + s + b) == trim(s),
{
    assert(a + s + b =~= a + (s + b));
    lemma_trim_start_blank_prefix(a, s + b);
    lemma_trim_start_with_suffix(s, b);
}

// ---------------------------------------------------------------------------
// Decimal numbers
// ---------------------------------------------------------------------------

/// The character of a decimal digit.
pub open spec fn digit_char(d: nat) -> char {
    (d + 48) as u8 as char
}

/// The decimal numeral of `n`, without leading zeros.
pub open spec fn decimal(n: nat) -> Seq<char>
    decreases n,
{
    if n < 10 {
        seq![digit_char(n)]
    } else {
        decimal(n / 10).push(digit_char(n % 10))
    }
}

/// Appends the decimal numeral of `n` to `out`.
pub(crate) fn push_decimal(out: &mut String, n: u64)
    ensures
        final(out)@ == old(out)@ + decimal(n as nat),
    decreases n,
{
    if n >= 10 {
        push_decimal(out, n / 10);
    }
    let digit: char = ((n % 10) as u8 + 48) as char;
    out.push(digit);
    assert(out@ =~= old(out)@ + decimal(n as nat));
}

/// Whether `c` is an ASCII digit.
pub open spec fn is_digit(c: char) -> bool {
    '0' <= c && c <= '9'
}

/// Whether `s` is a non-empty run of ASCII digits.
pub open spec fn is_numeral(s: Seq<char>) -> bool {
    &&& s.len() > 0
    &&& forall|i: int| 0 <= i < s.len() ==> is_digit(#[trigger] s[i])
}

/// The number that a run of ASCII digits denotes.
pub open spec fn numeral_value(s: Seq<char>) -> nat
    decreases s.len(),
{
    if s.len() == 0 {
        0
    } else {
        numeral_value(s.drop_last()) * 10 + ((s.last() as u8) - 48) as nat
    }
}

/// The unsigned 64-bit number that `s` denotes: digits alone, whose value fits.
pub open spec fn unsigned_value(s: Seq<char>) -> Option<u64> {
    if is_numeral(s) && numeral_value(s) <= u64::MAX {
        Some(numeral_value(s) as u64)
    } else {
        None
    }
}

/// Reads an unsigned 64-bit number.
pub(crate) fn parse_unsigned(s: &Vec<char>) -> (r: Option<u64>)
    ensures
        r == unsigned_value(s@),
{
    if s.len() == 0 {
        return None;
    }
    let mut i: usize = 0;
    let mut value: u64 = 0;
    let mut fits: bool = true;
    assert(s@.take(0) =~= Seq::<char>::empty());
    while i < s.len()
        invariant
            i <= s.len(),
            forall|j: int| 0 <= j < i ==> is_digit(#[trigger] s@[j]),
            fits ==> value == numeral_value(s@.take(i as int)),
            !fits ==> numeral_value(s@.take(i as int)) > u64::MAX,
        decreases s.len() - i,
    {
        let c: char = s[i];
        if !('0' <= c && c <= '9') {
            assert(!is_digit(s@[i as int]));
            return None;
        }
        let d: u64 = (c as u8 - 48) as u64;
        proof {
            assert(s@.take(i + 1).drop_last() =~= s@.take(i as int));
            assert(s@.take(i + 1).last() == c);
        }
        if fits {
            match value.checked_mul(10) {
                Some(shifted) => match shifted.checked_add(d) {
                    Some(sum) => {
                        value = sum;
                    },
                    None => {
                        fits = false;
                    },
                },
                None => {
                    fits = false;
                },
            }
        }
        i += 1;
    }
    assert(s@.take(s@.len() as int) =~= s@);
    if fits {
        Some(value)
    } else {
        None
    }
}

proof fn lemma_decimal_is_numeral(n: nat)
    ensures
        is_numeral(decimal(n)),
        numeral_value(decimal(n)) == n,
    decreases n,
{
    if n < 10 {
        let s = decimal(n);
        assert(s =~= seq![digit_char(n)]);
        assert(s.drop_last() =~= Seq::<char>::empty());
        assert(numeral_value(s.drop_last()) == 0);
    } else {
        lemma_decimal_is_numeral(n / 10);
        let s = decimal(n);
        assert(s.drop_last() =~= decimal(n / 10));
        assert(s.last() == digit_char(n % 10));
        assert forall|i: int| 0 <= i < s.len() implies is_digit(#[trigger] s[i]) by {
            if i < s.len() - 1 {
                assert(s[i] == decimal(n / 10)[i]);
            }
        }
    }
}

/// A decimal numeral is made of digits.
pub(crate) proof fn lemma_decimal_is_digits(n: nat)
    ensures
        forall|i: int| 0 <= i < decimal(n).len() ==> is_digit(#[trigger] decimal(n)[i]),
{
    lemma_decimal_is_numeral(n);
}

/// A decimal numeral has nothing to trim.
pub(crate) proof fn lemma_decimal_is_trimmed(n: nat)
    ensures
        trim(decimal(n)) == decimal(n),
{
    lemma_decimal_is_numeral(n);
    let s = decimal(n);
    assert(is_digit(s[0]));
    assert(is_digit(s[s.len() - 1]));
}

/// Reading the decimal numeral of a 64-bit number gives that number back.
pub(crate) proof fn lemma_decimal_round_trip(n: u64)
    ensures
        unsigned_value(decimal(n as nat)) == Some(n),
{
    lemma_decimal_is_numeral(n as nat);
}

// ---------------------------------------------------------------------------
// Laws
// ---------------------------------------------------------------------------

/// Changing the case keeps every character in its place, moves the ASCII letters of the other
/// case by 32 code points, and leaves all else alone.
pub proof fn law_case_moves_ascii_letters_alone(s: Seq<char>)
    ensures
        ascii_lower(s).len() == s.len(),
        ascii_upper(s).len() == s.len(),
        forall|i: int|
            #![trigger ascii_lower(s)[i]]
            0 <= i < s.len() ==> ascii_lower(s)[i] as int == if 65 <= s[i] as int <= 90 {
                s[i] as int + 32
            } else {
                s[i] as int
            },
        forall|i: int|
            #![trigger ascii_upper(s)[i]]
            0 <= i < s.len() ==> ascii_upper(s)[i] as int == if 97 <= s[i] as int <= 122 {
                s[i] as int - 32
            } else {
                s[i] as int
            },
{
}

/// A text holds another exactly where it is that other with something before it and something
/// behind it.
pub proof fn law_holding_a_text_is_having_it_between(hay: Seq<char>, needle: Seq<char>)
    ensures
        contains_text(hay, needle) <==> exists|pre: Seq<char>, post: Seq<char>|
            hay == #[trigger] (pre + needle + post),
{
    if contains_text(hay, needle) {
        let i = choose|i: int| #[trigger] occurs_at(hay, needle, i);
        let pre = hay.take(i);
        let post = hay.skip(i + needle.len());
        assert(hay =~= pre + needle + post);
    }
    if exists|pre: Seq<char>, post: Seq<char>| hay == #[trigger] (pre + needle + post) {
        let (pre, post) = choose|pre: Seq<char>, post: Seq<char>|
            hay == #[trigger] (pre + needle + post);
        assert(hay.subrange(pre.len() as int, (pre.len() + needle.len()) as int) =~= needle);
        assert(occurs_at(hay, needle, pre.len() as int));
    }
}

/// White space is what Unicode counts as such.
pub proof fn law_white_space_code_points(c: char)
    ensures
        is_white_space(c) <==> {
            let p = c as int;
            ||| 0x9 <= p <= 0xD
            ||| p == 0x20 || p == 0x85 || p == 0xA0 || p == 0x1680
            ||| 0x2000 <= p <= 0x200A
            ||| p == 0x2028 || p == 0x2029 || p == 0x202F || p == 0x205F || p == 0x3000
        },
{
}

proof fn lemma_trim_start_skips(s: Seq<char>) -> (k: int)
    ensures
        0 <= k <= s.len(),
        trim_start(s) == s.skip(k),
        forall|i: int| 0 <= i < k ==> is_white_space(#[trigger] s[i]),
        k < s.len() ==> !is_white_space(s[k]),
    decreases s.len(),
{
    if s.len() > 0 && is_white_space(s[0]) {
        let j = lemma_trim_start_skips(s.skip(1));
        assert(s.skip(1).skip(j) =~= s.skip(j + 1));
        assert forall|i: int| 0 <= i < j + 1 implies is_white_space(#[trigger] s[i]) by {
            if i > 0 {
                assert(s.skip(1)[i - 1] == s[i]);
            }
        }
        if j + 1 < s.len() {
            assert(s.skip(1)[j] == s[j + 1]);
        }
        j + 1
    } else {
        assert(s.skip(0) =~= s);
        0
    }
}

proof fn lemma_trim_end_takes(s: Seq<char>) -> (k: int)
    ensures
        0 <= k <= s.len(),
        trim_end(s) == s.take(k),
        forall|i: int| k <= i < s.len() ==> is_white_space(#[trigger] s[i]),
        k > 0 ==> !is_white_space(s[k - 1]),
    decreases s.len(),
{
    if s.len() > 0 && is_white_space(s.last()) {
        let j = lemma_trim_end_takes(s.drop_last());
        assert(s.drop_last().take(j) =~= s.take(j));
        assert forall|i: int| j <= i < s.len() implies is_white_space(#[trigger] s[i]) by {
            if i < s.len() - 1 {
                assert(s.drop_last()[i] == s[i]);
            }
        }
        if j > 0 {
            assert(s.drop_last()[j - 1] == s[j - 1]);
        }
        j
    } else {
        assert(s.take(s.len() as int) =~= s);
        s.len() as int
    }
}

/// Trimming takes white space off both ends, all of it, and nothing else: what is left is a
/// part of the text, only white space stands before and behind it, and it neither starts nor
/// ends with any.
pub proof fn law_trimming_takes_off_white_space_alone(s: Seq<char>)
    ensures
        exists|a: int, b: int|
            0 <= a <= b <= s.len() && trim(s) == #[trigger] s.subrange(a, b) && (forall|i: int|
                0 <= i < a ==> is_white_space(#[trigger] s[i])) && (forall|i: int|
                b <= i < s.len() ==> is_white_space(#[trigger] s[i])),
        trim(s).len() > 0 ==> !is_white_space(trim(s)[0]) && !is_white_space(trim(s).last()),
{
    let a = lemma_trim_start_skips(s);
    let head = s.skip(a);
    let k = lemma_trim_end_takes(head);
    let b = a + k;
    assert(trim(s) =~= s.subrange(a, b));
    assert forall|i: int| b <= i < s.len() implies is_white_space(#[trigger] s[i]) by {
        assert(head[i - a] == s[i]);
    }
    if k > 0 {
        assert(trim(s)[0] == s[a]);
        assert(trim(s).last() == head[k - 1]);
    }
}

/// A decimal numeral is the one of the tenth part with the last digit behind it, and a number
/// below ten is its digit.
pub proof fn law_decimal_is_written_digit_by_digit(n: nat)
    ensures
        n < 10 ==> decimal(n).len() == 1 && decimal(n)[0] as int == 48 + n,
        n >= 10 ==> decimal(n).len() == decimal(n / 10).len() + 1 && decimal(n).drop_last()
            == decimal(n / 10) && decimal(n).last() as int == 48 + n % 10,
{
    if n >= 10 {
        assert(decimal(n).drop_last() =~= decimal(n / 10));
    }
}

/// A numeral is read digit by digit: nothing is zero, and one more digit is ten times what came
/// before it and the digit.
pub proof fn law_numeral_is_read_digit_by_digit(s: Seq<char>, c: char)
    requires
        48 <= c as int <= 57,
    ensures
        numeral_value(Seq::empty()) == 0,
        numeral_value(s.push(c)) == 10 * numeral_value(s) + (c as int - 48),
{
    assert(s.push(c).drop_last() =~= s);
}

/// A text is a number exactly where it is one or more ASCII digits, and nothing else, that fit
/// 64 bits; it is then the number that they spell.
pub proof fn law_numbers_are_ascii_digits_alone(s: Seq<char>)
    ensures
        unsigned_value(s) is Some <==> s.len() > 0 && (forall|i: int|
            0 <= i < s.len() ==> 48 <= #[trigger] s[i] as int <= 57) && numeral_value(s)
            <= 18_446_744_073_709_551_615,
        unsigned_value(s) matches Some(n) ==> n == numeral_value(s),
{
    if s.len() > 0 && (forall|i: int| 0 <= i < s.len() ==> 48 <= #[trigger] s[i] as int <= 57) {
        assert forall|i: int| 0 <= i < s.len() implies is_digit(#[trigger] s[i]) by {
            assert(48 <= s[i] as int <= 57);
        }
    }
    if is_numeral(s) {
        assert forall|i: int| 0 <= i < s.len() implies 48 <= #[trigger] s[i] as int <= 57 by {
            assert(is_digit(s[i]));
        }
    }
}

} // verus!
