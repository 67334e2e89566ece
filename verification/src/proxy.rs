//! Proxy settings of a driver.

use crate::client::{proxy_all, ProxySettings};
use crate::error::{ErrorView, TransportError};
use crate::http::map_reqwest_error;
use crate::url::{parse_url, redacted_url, takes_credentials};
use reqwest::{Proxy, Url};
use vstd::prelude::*;
use vstd::string::StringExecFns;

verus! {

/// The user name and password for a proxy.
#[derive(Clone, PartialEq, Eq)]
pub struct ProxyAuth {
    /// The user name.
    pub username: String,
    /// The password.
    pub password: String,
}

/// A proxy for all traffic of a driver. It has no `Debug`: [`ProxyConfig::debug_string`] is
/// what may be shown of it.
#[derive(Clone, PartialEq, Eq)]
pub struct ProxyConfig {
    /// The URL of the proxy.
    pub url: String,
    /// The credentials, where the proxy asks for them.
    pub auth: Option<ProxyAuth>,
}

impl View for ProxyConfig {
    type V = ProxySettings;

    open spec fn view(&self) -> ProxySettings {
        ProxySettings {
            url: self.url@,
            auth: match self.auth {
                Some(a) => Some((a.username@, a.password@)),
                None => None,
            },
        }
    }
}

/// What is shown of a proxy: the origin of its URL, and whether it has credentials.
pub open spec fn shown_proxy(p: ProxySettings) -> Seq<char> {
    "ProxyConfig { url: "@ + crate::url::shown_url(crate::url::parsed_url(p.url)) + ", auth: "@ + (
    if p.auth is Some {
        "Some(\"***\")"@
    } else {
        "None"@
    }) + " }"@
}

impl ProxyConfig {
    /// A proxy without credentials.
    pub fn new(url: &str) -> (r: Self)
        ensures
            r@.url == url@,
            r@.auth is None,
    {
        ProxyConfig { url: url.to_owned(), auth: None }
    }

    /// A proxy with a user name and a password.
    pub fn with_auth(url: &str, username: &str, password: &str) -> (r: Self)
        ensures
            r@.url == url@,
            r@.auth == Some((username@, password@)),
    {
        ProxyConfig {
            url: url.to_owned(),
            auth: Some(
                ProxyAuth { username: username.to_owned(), password: password.to_owned() },
            ),
        }
    }

    /// The redacted text of the proxy.
    pub fn debug_string(&self) -> (r: String)
        ensures
            r@ == shown_proxy(self@),
    {
        let url: String = redacted_url(self.url.as_str());
        let mut out: String = "ProxyConfig { url: ".to_owned();
        out.append(url.as_str());
        out.append(", auth: ");
        match &self.auth {
            Some(_) => out.append("Some(\"***\")"),
            None => out.append("None"),
        }
        out.append(" }");
        out
    }
}

/// The shown text of a proxy depends on the origin of its URL and on whether it has
/// credentials, never on what they are.
pub proof fn law_proxy_text_hides_credentials(a: ProxySettings, b: ProxySettings)
    requires
        crate::url::usable_origin(crate::url::parsed_url(a.url)) == crate::url::usable_origin(
            crate::url::parsed_url(b.url),
        ),
        a.auth is Some <==> b.auth is Some,
    ensures
        shown_proxy(a) == shown_proxy(b),
{
}

/// Whether the URL of a proxy can carry the credentials that go with it.
pub open spec fn carries_credentials(p: ProxySettings) -> bool {
    match p.auth {
        Some((username, password)) => crate::client::takes_proxy_credentials(
            p.url,
            username,
            password,
        ),
        None => true,
    }
}

/// The error with which a proxy is refused, where it is: its URL is not one of a proxy, or
/// cannot carry the credentials.
pub open spec fn proxy_error(p: ProxySettings) -> Option<ErrorView> {
    if !crate::client::takes_proxy_url(p.url) {
        Some(ErrorView::ProtocolViolation("builder error"@))
    } else if !carries_credentials(p) {
        Some(ErrorView::ProtocolViolation("proxy URL cannot carry credentials"@))
    } else {
        None
    }
}

/// The URL that a proxy is at.
fn target_url(text: &str) -> (r: Option<Url>)
    ensures
        match r {
            Some(url) => crate::client::proxy_target(text@) == Some(crate::url::url_view(url)),
            None => crate::client::proxy_target(text@) is None,
        },
{
    match parse_url(text) {
        Some(url) => {
            if url.has_host() {
                return Some(url);
            }
        },
        None => {},
    }
    let mut with_scheme: String = "http://".to_owned();
    with_scheme.append(text);
    parse_url(with_scheme.as_str())
}

/// Counts the bytes that a user name or a password takes in a URL.
fn count_escaped(text: &str) -> (r: u128)
    ensures
        r == crate::client::escaped_len(vstd::utf8::encode_utf8(text@)),
        r <= 3 * usize::MAX,
{
    let bytes: &[u8] = text.as_bytes();
    let mut len: u128 = 0;
    let mut i: usize = 0;
    assert(bytes@.take(0) =~= Seq::<u8>::empty());
    while i < bytes.len()
        invariant
            i <= bytes.len(),
            len == crate::client::escaped_len(bytes@.take(i as int)),
            len <= 3 * i,
        decreases bytes.len() - i,
    {
        let b: u8 = bytes[i];
        let escaped: bool = b < 32 || b >= 127 || b == 32 || b == 34 || b == 35 || b == 47 || b
            == 58 || b == 59 || b == 60 || b == 61 || b == 62 || b == 63 || b == 64 || b == 91 || b
            == 92 || b == 93 || b == 94 || b == 96 || b == 123 || b == 124 || b == 125;
        proof {
            let next = bytes@.take(i + 1);
            assert(next.drop_last() =~= bytes@.take(i as int));
            assert(next.last() == b);
        }
        if escaped {
            len = len + 3;
        } else {
            len = len + 1;
        }
        i = i + 1;
    }
    assert(bytes@.take(i as int) =~= bytes@);
    len
}

fn credentials_fit(config: &ProxyConfig) -> (r: bool)
    ensures
        r == carries_credentials(config@),
{
    match &config.auth {
        Some(auth) => match target_url(config.url.as_str()) {
            Some(url) => {
                let len: u128 = url.as_str().as_bytes().len() as u128 + count_escaped(
                    auth.username.as_str(),
                ) + count_escaped(auth.password.as_str()) + 8;
                takes_credentials(&url) && len <= u32::MAX as u128
            },
            None => false,
        },
        None => true,
    }
}

/// The `reqwest` proxy for a configuration.
pub fn build_reqwest_proxy(config: &ProxyConfig) -> (r: Result<Proxy, TransportError>)
    ensures
        match r {
            Ok(p) => proxy_error(config@) is None && crate::client::proxy_settings(p) == config@,
            Err(e) => proxy_error(config@) == Some(e@),
        },
{
    let proxy: Proxy = match proxy_all(config.url.as_str()) {
        Ok(proxy) => proxy,
        Err(error) => return Err(map_reqwest_error(error)),
    };
    if !credentials_fit(config) {
        return Err(
            TransportError::ProtocolViolation("proxy URL cannot carry credentials".to_owned()),
        );
    }
    match &config.auth {
        Some(auth) => Ok(proxy.basic_auth(auth.username.as_str(), auth.password.as_str())),
        None => Ok(proxy),
    }
}

/// A proxy is known by its URL and, where it has credentials, by its user name and password.
pub proof fn law_proxies_keep_url_and_credentials(p: ProxyConfig)
    ensures
        p@.url == p.url@,
        p.auth is None ==> p@.auth is None,
        p.auth matches Some(a) ==> p@.auth == Some((a.username@, a.password@)),
{
}

/// What is shown of a proxy is the origin of its URL, and three stars where it has
/// credentials.
pub proof fn law_what_is_shown_of_a_proxy(p: ProxySettings)
    ensures
        shown_proxy(p) == "ProxyConfig { url: "@ + crate::url::shown_url(
            crate::url::parsed_url(p.url),
        ) + ", auth: "@ + (match p.auth {
            Some(_) => "Some(\"***\")"@,
            None => "None"@,
        }) + " }"@,
{
}

/// A proxy is refused for two reasons alone: its URL is not one that a proxy can be at, or that
/// URL cannot carry the credentials that go with it. Without credentials only the first counts.
pub proof fn law_why_a_proxy_is_refused(p: ProxySettings)
    ensures
        proxy_error(p) is Some <==> !crate::client::takes_proxy_url(p.url) || (
        p.auth matches Some(a) && !crate::client::takes_proxy_credentials(p.url, a.0, a.1)),
        proxy_error(p) matches Some(e) ==> e is ProtocolViolation,
        !crate::client::takes_proxy_url(p.url) ==> proxy_error(p) == Some(
            ErrorView::ProtocolViolation("builder error"@),
        ),
        crate::client::takes_proxy_url(p.url) && proxy_error(p) is Some ==> proxy_error(p) == Some(
            ErrorView::ProtocolViolation("proxy URL cannot carry credentials"@),
        ),
{
}

/// Credentials fit a proxy exactly where the URL that it is at can carry any and stays within
/// 32-bit offsets with them. It is at the URL given, where that has a host, and else at the
/// same text behind `http://`.
pub proof fn law_which_credentials_a_proxy_takes(
    url: Seq<char>,
    username: Seq<char>,
    password: Seq<char>,
)
    ensures
        ({
            let target = match crate::url::parsed_url(url) {
                Some(u) => if u.has_host {
                    Some(u)
                } else {
                    crate::url::parsed_url("http://"@ + url)
                },
                None => crate::url::parsed_url("http://"@ + url),
            };
            crate::client::takes_proxy_credentials(url, username, password) <==> match target {
                Some(u) => u.takes_credentials && vstd::utf8::encode_utf8(u.text).len()
                    + crate::client::escaped_len(vstd::utf8::encode_utf8(username))
                    + crate::client::escaped_len(vstd::utf8::encode_utf8(password)) + 8
                    <= 4_294_967_295,
                None => false,
            }
        }),
{
}

} // verus!
