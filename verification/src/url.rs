//! What the library reads of a URL, and the only part of it that may be shown.

use crate::text::quoted;
use reqwest::Url;
use vstd::prelude::*;

verus! {

/// What is read of a URL.
pub struct UrlView {
    /// The whole URL, serialized.
    pub text: Seq<char>,
    /// Whether the URL is opaque, such as `mailto:`.
    pub cannot_be_a_base: bool,
    /// Whether the URL has a host.
    pub has_host: bool,
    /// Whether the URL can carry a user name and a password.
    pub takes_credentials: bool,
    /// Scheme, host and port, serialized.
    pub origin: Seq<char>,
}

/// `reqwest::Url`, known by what is read of it.
#[verifier::external_type_specification]
#[verifier::external_body]
pub struct ExUrl(Url);

/// What is read of a URL.
pub uninterp spec fn url_view(url: Url) -> UrlView;

/// What `Url::parse` makes of a text: nothing, or a URL of which this is read.
pub uninterp spec fn parsed_url(text: Seq<char>) -> Option<UrlView>;

/// `Url::parse`: whether a text parses, and all that is read of the URL that it gives, is a
/// function of the text.
#[verifier::external_body]
pub(crate) fn parse_url(text: &str) -> (r: Option<Url>)
    ensures
        match r {
            Some(url) => parsed_url(text@) == Some(url_view(url)),
            None => parsed_url(text@) is None,
        },
{
    Url::parse(text).ok()
}

/// `Url::as_str`: the whole URL, serialized.
pub assume_specification[ Url::as_str ](url: &Url) -> (r: &str)
    ensures
        r@ == url_view(*url).text,
;

/// `Url::cannot_be_a_base`: whether the URL is opaque.
pub assume_specification[ Url::cannot_be_a_base ](url: &Url) -> (r: bool)
    ensures
        r == url_view(*url).cannot_be_a_base,
;

/// `Url::has_host`: whether the URL has a host.
pub assume_specification[ Url::has_host ](url: &Url) -> (r: bool)
    ensures
        r == url_view(*url).has_host,
;

/// `Url::set_username`, on a copy: whether the URL can carry a user name and a password.
#[verifier::external_body]
pub(crate) fn takes_credentials(url: &Url) -> (r: bool)
    ensures
        r == url_view(*url).takes_credentials,
{
    url.clone().set_username("").is_ok()
}

/// `Url::origin` and `Origin::ascii_serialization`: scheme, host and port, serialized. Of an
/// opaque `blob:` URL the origin is that of the URL inside it, to any depth; the precondition
/// leaves opaque URLs out, and so the nesting.
#[verifier::external_body]
pub(crate) fn origin_text(url: &Url) -> (r: String)
    requires
        !url_view(*url).cannot_be_a_base,
        url_view(*url).has_host,
    ensures
        r@ == url_view(*url).origin,
{
    url.origin().ascii_serialization()
}

/// The origin of a URL, where it is one that names a host.
pub open spec fn usable_origin(parsed: Option<UrlView>) -> Option<Seq<char>> {
    match parsed {
        Some(u) => if !u.cannot_be_a_base && u.has_host {
            Some(u.origin)
        } else {
            None
        },
        None => None,
    }
}

/// The shown form of an origin: quoted, or a fixed mark where there is none.
pub open spec fn shown_origin(origin: Option<Seq<char>>) -> Seq<char> {
    match origin {
        Some(origin) => crate::text::quoted_text(origin),
        None => "\"<invalid-url-redacted>\""@,
    }
}

/// The shown form of a URL: its quoted origin, or a fixed mark where it does not parse, is
/// opaque or has no host.
pub open spec fn shown_url(parsed: Option<UrlView>) -> Seq<char> {
    shown_origin(usable_origin(parsed))
}

/// The origin of a URL; none where it does not parse, is opaque or has no host.
pub fn url_origin(text: &str) -> (r: Option<String>)
    ensures
        match r {
            Some(origin) => usable_origin(parsed_url(text@)) == Some(origin@),
            None => usable_origin(parsed_url(text@)) is None,
        },
{
    match parse_url(text) {
        Some(url) => {
            if url.cannot_be_a_base() || !url.has_host() {
                None
            } else {
                Some(origin_text(&url))
            }
        },
        None => None,
    }
}

/// The shown form of an origin that may be missing.
pub fn origin_shown(origin: &Option<String>) -> (r: String)
    ensures
        r@ == shown_origin(
            match *origin {
                Some(origin) => Some(origin@),
                None => None,
            },
        ),
{
    match origin {
        Some(origin) => quoted(origin.as_str()),
        None => "\"<invalid-url-redacted>\"".to_owned(),
    }
}

/// The shown form of a URL: scheme, host and port at most.
pub fn redacted_url(url: &str) -> (r: String)
    ensures
        r@ == shown_url(parsed_url(url@)),
{
    origin_shown(&url_origin(url))
}

/// Of a URL nothing but its origin is shown: two URLs of one origin are shown alike, whatever
/// path, query, user name and fragment they have.
pub proof fn law_url_text_is_the_origin(a: Seq<char>, b: Seq<char>)
    requires
        usable_origin(parsed_url(a)) == usable_origin(parsed_url(b)),
    ensures
        shown_url(parsed_url(a)) == shown_url(parsed_url(b)),
{
}

/// A URL without a usable origin is shown as a fixed mark: nothing of its text is echoed.
pub proof fn law_unusable_url_is_not_echoed(url: Seq<char>)
    requires
        usable_origin(parsed_url(url)) is None,
    ensures
        shown_url(parsed_url(url)) == "\"<invalid-url-redacted>\""@,
{
}

/// The origin of a URL is used exactly where the URL parses, is not opaque and has a host; it is
/// then shown quoted, and otherwise a fixed mark is shown.
pub proof fn law_origin_is_shown_where_there_is_one(u: UrlView)
    ensures
        usable_origin(None) is None,
        usable_origin(Some(u)) is Some <==> !u.cannot_be_a_base && u.has_host,
        usable_origin(Some(u)) matches Some(origin) ==> origin == u.origin,
        !u.cannot_be_a_base && u.has_host ==> shown_url(Some(u)) == crate::text::quoted_text(
            u.origin,
        ),
        u.cannot_be_a_base || !u.has_host ==> shown_url(Some(u))
            == "\"<invalid-url-redacted>\""@,
        shown_url(None) == "\"<invalid-url-redacted>\""@,
        shown_origin(Some(u.origin)) == crate::text::quoted_text(u.origin),
        shown_origin(None) == "\"<invalid-url-redacted>\""@,
{
}

} // verus!
