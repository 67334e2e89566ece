//! The parts of the `reqwest` client that the HTTP driver is built from.
//!
//! The client types are opaque. What a builder was given, and what a client, a certificate, a
//! proxy or a request was made from, is named here; every function of `reqwest` that the
//! driver calls is described over these names.

use crate::url::UrlView;
use bytes::Bytes;
use reqwest::{Certificate, Client, ClientBuilder, Method, Proxy, Request, RequestBuilder};
use std::time::Duration;
use vstd::prelude::*;

verus! {

// ---------------------------------------------------------------------------
// Errors
// ---------------------------------------------------------------------------

/// What the driver reads of a `reqwest` error.
pub struct FaultView {
    /// Whether it is a timeout.
    pub is_timeout: bool,
    /// Whether it arose while connecting.
    pub is_connect: bool,
    /// Whether it arose while a request or a client was put together.
    pub is_builder: bool,
    /// Its message.
    pub text: Seq<char>,
}

/// A fault of the builder kind, and of no other.
pub open spec fn builder_fault(text: Seq<char>) -> FaultView {
    FaultView { is_timeout: false, is_connect: false, is_builder: true, text }
}

/// `reqwest::Error`, known by what the driver reads of it.
#[verifier::external_type_specification]
#[verifier::external_body]
pub struct ExError(reqwest::Error);

/// What is read of an error.
pub uninterp spec fn fault_of(e: reqwest::Error) -> FaultView;

/// `Error::is_timeout`: whether the error is a timeout.
pub assume_specification[ reqwest::Error::is_timeout ](e: &reqwest::Error) -> (r: bool)
    ensures
        r == fault_of(*e).is_timeout,
;

/// `Error::is_connect`: whether the error arose while connecting.
pub assume_specification[ reqwest::Error::is_connect ](e: &reqwest::Error) -> (r: bool)
    ensures
        r == fault_of(*e).is_connect,
;

/// `Error::is_builder`: whether the error arose while something was put together.
pub assume_specification[ reqwest::Error::is_builder ](e: &reqwest::Error) -> (r: bool)
    ensures
        r == fault_of(*e).is_builder,
;

/// `Error::to_string`: the message of the error.
#[verifier::external_body]
pub(crate) fn error_message(e: &reqwest::Error) -> (r: String)
    ensures
        r@ == fault_of(*e).text,
{
    e.to_string()
}

// ---------------------------------------------------------------------------
// Certificates and proxies
// ---------------------------------------------------------------------------

/// `reqwest::Certificate`, known by the PEM text that it was made from.
#[verifier::external_type_specification]
#[verifier::external_body]
pub struct ExCertificate(Certificate);

/// The PEM bytes that a certificate holds.
pub uninterp spec fn certificate_pem(c: Certificate) -> Seq<u8>;

/// `Certificate::from_pem`: a certificate, where one is made, holds the given bytes. Whether
/// the bytes are examined at this point depends on the TLS backend, so nothing is said of
/// when it fails.
#[verifier::external_body]
pub(crate) fn certificate_from_pem(pem: &[u8]) -> (r: Result<Certificate, reqwest::Error>)
    ensures
        r matches Ok(c) ==> certificate_pem(c) == pem@,
{
    Certificate::from_pem(pem)
}

/// A proxy: where it is, and the credentials it is given.
pub struct ProxySettings {
    pub url: Seq<char>,
    pub auth: Option<(Seq<char>, Seq<char>)>,
}

/// `reqwest::Proxy`, known by its URL and credentials.
#[verifier::external_type_specification]
#[verifier::external_body]
pub struct ExProxy(Proxy);

/// The settings that a proxy was made with.
pub uninterp spec fn proxy_settings(p: Proxy) -> ProxySettings;

/// Whether `Proxy::all` takes a URL.
pub uninterp spec fn takes_proxy_url(url: Seq<char>) -> bool;

/// `Proxy::all`: a proxy for all traffic at the given URL, or an error of the builder kind
/// with a fixed message. Which of the two comes is a function of the URL.
#[verifier::external_body]
pub(crate) fn proxy_all(url: &str) -> (r: Result<Proxy, reqwest::Error>)
    ensures
        match r {
            Ok(p) => takes_proxy_url(url@) && proxy_settings(p) == (ProxySettings {
                url: url@,
                auth: None,
            }),
            Err(e) => !takes_proxy_url(url@) && fault_of(e) == builder_fault("builder error"@),
        },
{
    Proxy::all(url)
}

/// What is read of the URL that a proxy is at: the URL that it was given, or, where that is
/// none with a host, the same text behind `http://`.
pub open spec fn proxy_target(url: Seq<char>) -> Option<UrlView> {
    match crate::url::parsed_url(url) {
        Some(u) => if u.has_host {
            Some(u)
        } else {
            crate::url::parsed_url("http://"@ + url)
        },
        None => crate::url::parsed_url("http://"@ + url),
    }
}

/// Whether a byte of a user name or a password is percent-encoded in a URL: a control, a byte
/// that is not ASCII, or one that has a meaning there.
pub open spec fn is_escaped(b: u8) -> bool {
    ||| b < 32 || b >= 127
    ||| b == 32 || b == 34 || b == 35 || b == 47 || b == 58 || b == 59  // space " # / : ;
    ||| b == 60 || b == 61 || b == 62 || b == 63 || b == 64  // < = > ? @
    ||| b == 91 || b == 92 || b == 93 || b == 94 || b == 96  // [ \ ] ^ `
    ||| b == 123 || b == 124 || b == 125  // { | }
}

/// The number of bytes that a user name or a password takes in a URL: three for each that is
/// percent-encoded, and one for every other.
pub open spec fn escaped_len(bytes: Seq<u8>) -> nat
    decreases bytes.len(),
{
    if bytes.len() == 0 {
        0
    } else {
        escaped_len(bytes.drop_last()) + (if is_escaped(bytes.last()) {
            3nat
        } else {
            1nat
        })
    }
}

/// The most bytes that a URL has while credentials are put into it: its own, those of the
/// credentials, the separators around them, and the port that a SOCKS URL without one is
/// given.
pub open spec fn url_len_with(u: UrlView, username: Seq<char>, password: Seq<char>) -> nat {
    vstd::utf8::encode_utf8(u.text).len() + escaped_len(vstd::utf8::encode_utf8(username))
        + escaped_len(vstd::utf8::encode_utf8(password)) + 8
}

/// Whether the URL that a proxy is at takes these credentials. URLs are kept with 32-bit
/// offsets, so a URL that may outgrow them does not.
pub open spec fn takes_proxy_credentials(
    url: Seq<char>,
    username: Seq<char>,
    password: Seq<char>,
) -> bool {
    proxy_target(url) matches Some(u) && u.takes_credentials && url_len_with(u, username, password)
        <= u32::MAX
}

/// `Proxy::basic_auth`: the same proxy with the given credentials. They are kept in the URL,
/// so the function panics where that URL cannot carry any, or would outgrow 32-bit offsets.
pub assume_specification[ Proxy::basic_auth ](proxy: Proxy, username: &str, password: &str) -> (r:
    Proxy)
    requires
        takes_proxy_credentials(proxy_settings(proxy).url, username@, password@),
    ensures
        proxy_settings(r) == (ProxySettings {
            url: proxy_settings(proxy).url,
            auth: Some((username@, password@)),
        }),
;

// ---------------------------------------------------------------------------
// Clients
// ---------------------------------------------------------------------------

/// What a client is set up with, beyond the defaults of `reqwest`.
pub struct ClientSettings {
    /// The total timeout of a request, in nanoseconds.
    pub timeout: Option<nat>,
    /// The PEM bytes of the added root certificates, in order.
    pub roots: Seq<Seq<u8>>,
    /// Whether invalid certificates are accepted.
    pub accept_invalid_certs: bool,
    /// The added proxies, in order.
    pub proxies: Seq<ProxySettings>,
}

/// The settings of a client that nothing was set on: no timeout, no added roots, certificates
/// checked, no added proxy.
pub open spec fn default_settings() -> ClientSettings {
    ClientSettings {
        timeout: None,
        roots: Seq::empty(),
        accept_invalid_certs: false,
        proxies: Seq::empty(),
    }
}

/// `reqwest::Client`, known by the settings that it was built with.
#[verifier::external_type_specification]
#[verifier::external_body]
pub struct ExClient(Client);

/// `reqwest::ClientBuilder`, known by the settings that it holds.
#[verifier::external_type_specification]
#[verifier::external_body]
pub struct ExClientBuilder(ClientBuilder);

/// The settings that a client was built with.
pub uninterp spec fn client_settings(c: Client) -> ClientSettings;

/// The settings that a client builder holds.
pub uninterp spec fn builder_settings(b: ClientBuilder) -> ClientSettings;

/// `Client::clone`: another handle on the same client.
pub assume_specification[ <Client as Clone>::clone ](client: &Client) -> (r: Client)
    ensures
        client_settings(r) == client_settings(*client),
;

/// `Client::builder`: a builder on which nothing is set.
pub assume_specification[ Client::builder ]() -> (r: ClientBuilder)
    ensures
        builder_settings(r) == default_settings(),
;

/// `ClientBuilder::timeout`: sets the total timeout.
pub assume_specification[ ClientBuilder::timeout ](builder: ClientBuilder, timeout: Duration) -> (r:
    ClientBuilder)
    ensures
        builder_settings(r) == (ClientSettings {
            timeout: Some(crate::time::duration_nanos(timeout)),
            ..builder_settings(builder)
        }),
;

/// `ClientBuilder::add_root_certificate`: adds one root certificate.
pub assume_specification[ ClientBuilder::add_root_certificate ](
    builder: ClientBuilder,
    cert: Certificate,
) -> (r: ClientBuilder)
    ensures
        builder_settings(r) == (ClientSettings {
            roots: builder_settings(builder).roots.push(certificate_pem(cert)),
            ..builder_settings(builder)
        }),
;

/// `ClientBuilder::danger_accept_invalid_certs`: sets whether invalid certificates are
/// accepted.
pub assume_specification[ ClientBuilder::danger_accept_invalid_certs ](
    builder: ClientBuilder,
    accept_invalid_certs: bool,
) -> (r: ClientBuilder)
    ensures
        builder_settings(r) == (ClientSettings {
            accept_invalid_certs,
            ..builder_settings(builder)
        }),
;

/// `ClientBuilder::proxy`: adds one proxy.
pub assume_specification[ ClientBuilder::proxy ](builder: ClientBuilder, proxy: Proxy) -> (r:
    ClientBuilder)
    ensures
        builder_settings(r) == (ClientSettings {
            proxies: builder_settings(builder).proxies.push(proxy_settings(proxy)),
            ..builder_settings(builder)
        }),
;

/// `ClientBuilder::build`: a client, where one is built, has the settings of the builder.
/// Whether it is built rests on the machine as well (its TLS backend, its certificates), so
/// nothing is said of when it fails.
#[verifier::external_body]
pub(crate) fn build_client(builder: ClientBuilder) -> (r: Result<Client, reqwest::Error>)
    ensures
        r matches Ok(c) ==> client_settings(c) == builder_settings(builder),
{
    builder.build()
}

// ---------------------------------------------------------------------------
// Requests
// ---------------------------------------------------------------------------

/// What a request is made from.
pub struct OutgoingView {
    /// The bytes of the method.
    pub method: Seq<u8>,
    pub url: Seq<char>,
    /// The headers handed over, in order.
    pub headers: Seq<(Seq<char>, Seq<char>)>,
    pub body: Option<Seq<u8>>,
}

/// `reqwest::Method`, known by its bytes.
#[verifier::external_type_specification]
#[verifier::external_body]
pub struct ExMethod(Method);

/// `reqwest::RequestBuilder`, known by what it was given.
#[verifier::external_type_specification]
#[verifier::external_body]
pub struct ExRequestBuilder(RequestBuilder);

/// `reqwest::Request`, known by what it was made from.
#[verifier::external_type_specification]
#[verifier::external_body]
pub struct ExRequest(Request);

/// The bytes of a method.
pub uninterp spec fn method_bytes(m: Method) -> Seq<u8>;

/// What a request builder was given.
pub uninterp spec fn drafted(b: RequestBuilder) -> OutgoingView;

/// What a request was made from.
pub uninterp spec fn requested(r: Request) -> OutgoingView;

/// Whether a byte may stand in an HTTP token.
pub open spec fn is_token_byte(b: u8) -> bool {
    ||| 48 <= b && b <= 57  // 0-9
    ||| 65 <= b && b <= 90  // A-Z
    ||| 97 <= b && b <= 122  // a-z
    ||| b == 33 || b == 35 || b == 36 || b == 37 || b == 38 || b == 39  // ! # $ % & '
    ||| b == 42 || b == 43 || b == 45 || b == 46  // * + - .
    ||| b == 94 || b == 95 || b == 96 || b == 124 || b == 126  // ^ _ ` | ~
}

/// Whether bytes form an HTTP method: a token of at least one byte.
pub open spec fn is_method(bytes: Seq<u8>) -> bool {
    &&& bytes.len() > 0
    &&& forall|i: int| 0 <= i < bytes.len() ==> is_token_byte(#[trigger] bytes[i])
}

/// `Method::from_bytes`: any non-empty token is a method; everything else is refused with a
/// fixed message.
#[verifier::external_body]
pub(crate) fn method_from_bytes(bytes: &[u8]) -> (r: Result<Method, String>)
    ensures
        match r {
            Ok(m) => is_method(bytes@) && method_bytes(m) == bytes@,
            Err(text) => !is_method(bytes@) && text@ == "invalid HTTP method"@,
        },
{
    Method::from_bytes(bytes).map_err(|e| e.to_string())
}

/// `Client::request`: a builder that was given a method and a URL. A URL that cannot be used
/// is reported when the request is built.
#[verifier::external_body]
pub(crate) fn draft_request(client: &Client, method: Method, url: &str) -> (r: RequestBuilder)
    ensures
        drafted(r) == (OutgoingView {
            method: method_bytes(method),
            url: url@,
            headers: Seq::empty(),
            body: None,
        }),
{
    client.request(method, url)
}

/// The names of headers, in lower case: the case of a name does not tell headers apart.
pub open spec fn lower_names(headers: Seq<(Seq<char>, Seq<char>)>) -> Seq<Seq<char>> {
    headers.map_values(|h: (Seq<char>, Seq<char>)| crate::text::ascii_lower(h.0))
}

/// The names that occur among headers.
pub open spec fn header_names(headers: Seq<(Seq<char>, Seq<char>)>) -> Set<Seq<char>> {
    lower_names(headers).to_set()
}

/// The most names that the headers of a request have. The header table of `reqwest` panics
/// rather than grow beyond 32,768 slots, and however the names hash it has to grow from there
/// only once a fifth of the slots are taken. One name is left over for the credentials that a
/// URL may hold, which become a header too.
pub const MAX_HEADER_NAMES: usize = 6_552;

/// `RequestBuilder::header`: one more header, behind those given before. A name or value that
/// cannot be used is reported when the request is built.
#[verifier::external_body]
pub(crate) fn draft_header(builder: RequestBuilder, name: String, value: String) -> (r:
    RequestBuilder)
    requires
        header_names(drafted(builder).headers.push((name@, value@))).len() <= MAX_HEADER_NAMES,
    ensures
        drafted(r) == (OutgoingView {
            headers: drafted(builder).headers.push((name@, value@)),
            ..drafted(builder)
        }),
{
    builder.header(name, value)
}

/// `RequestBuilder::body`: sets the body.
#[verifier::external_body]
pub(crate) fn draft_body(builder: RequestBuilder, body: Bytes) -> (r: RequestBuilder)
    ensures
        drafted(r) == (OutgoingView {
            body: Some(crate::payload::contents(body)),
            ..drafted(builder)
        }),
{
    builder.body(body)
}

/// The message with which a request for this URL with these headers is refused, where it is.
pub uninterp spec fn request_refusal(
    url: Seq<char>,
    headers: Seq<(Seq<char>, Seq<char>)>,
) -> Option<Seq<char>>;

/// `RequestBuilder::build`: the request that was drafted, or an error of the builder kind for
/// a URL, a header name or a header value that cannot be used. Which of the two comes, and
/// the message, is a function of the URL and the headers.
#[verifier::external_body]
pub(crate) fn build_request(builder: RequestBuilder) -> (r: Result<Request, reqwest::Error>)
    ensures
        match r {
            Ok(q) => request_refusal(drafted(builder).url, drafted(builder).headers) is None
                && requested(q) == drafted(builder),
            Err(e) => request_refusal(
                drafted(builder).url,
                drafted(builder).headers,
            ) matches Some(text) && fault_of(e) == builder_fault(text),
        },
{
    builder.build()
}

/// Bytes are a method exactly where there is at least one, and each is visible ASCII and none
/// of the separators of HTTP.
pub proof fn law_which_bytes_are_a_method(bytes: Seq<u8>)
    ensures
        is_method(bytes) <==> bytes.len() > 0 && forall|i: int|
            0 <= i < bytes.len() ==> {
                let b = #[trigger] bytes[i];
                &&& 33 <= b <= 126
                &&& b != 34 && b != 40 && b != 41 && b != 44 && b != 47  // " ( ) , /
                &&& !(58 <= b <= 64)  // : ; < = > ? @
                &&& !(91 <= b <= 93)  // [ \ ]
                &&& b != 123 && b != 125  // { }
            },
{
    assert forall|b: u8| #[trigger] is_token_byte(b) <==> 33 <= b <= 126 && b != 34 && b != 40
        && b != 41 && b != 44 && b != 47 && !(58 <= b <= 64) && !(91 <= b <= 93) && b != 123 && b
        != 125 by {}
    if is_method(bytes) {
        assert forall|i: int| 0 <= i < bytes.len() implies {
            let b = #[trigger] bytes[i];
            &&& 33 <= b <= 126
            &&& b != 34 && b != 40 && b != 41 && b != 44 && b != 47
            &&& !(58 <= b <= 64)
            &&& !(91 <= b <= 93)
            &&& b != 123 && b != 125
        } by {
            assert(is_token_byte(bytes[i]));
        }
    }
}

/// Each byte of a user name or a password takes one byte of a URL where it is a letter, a
/// digit or one of `!$%&'()*+,-._~`, and three otherwise.
pub proof fn law_what_credentials_take_in_a_url(bytes: Seq<u8>, b: u8)
    ensures
        escaped_len(Seq::empty()) == 0,
        escaped_len(bytes.push(b)) == escaped_len(bytes) + (if 48 <= b <= 57 || 65 <= b <= 90
            || 97 <= b <= 122 || b == 33 || 36 <= b <= 46 || b == 95 || b == 126 {
            1nat
        } else {
            3nat
        }),
{
    assert(bytes.push(b).drop_last() =~= bytes);
}

/// The names of headers are those that occur, in lower case, and no others.
pub proof fn law_header_names_are_those_that_occur(
    headers: Seq<(Seq<char>, Seq<char>)>,
    name: Seq<char>,
)
    ensures
        header_names(headers).contains(name) <==> exists|i: int|
            0 <= i < headers.len() && crate::text::ascii_lower((#[trigger] headers[i]).0) == name,
{
    let names = lower_names(headers);
    if header_names(headers).contains(name) {
        let i = choose|i: int| 0 <= i < names.len() && names[i] == name;
        assert(crate::text::ascii_lower(headers[i].0) == name);
    }
    if exists|i: int|
        0 <= i < headers.len() && crate::text::ascii_lower((#[trigger] headers[i]).0) == name {
        let i = choose|i: int|
            0 <= i < headers.len() && crate::text::ascii_lower((#[trigger] headers[i]).0) == name;
        assert(names[i] == name);
    }
}

} // verus!
