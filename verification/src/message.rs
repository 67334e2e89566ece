//! The request and response that cross the transport boundary.

use crate::redact::{body_text, headers_text};
use crate::text::{push_decimal, quoted};
use crate::url::redacted_url;
use bytes::Bytes;
use vstd::prelude::*;
use vstd::string::StringExecFns;

verus! {

/// A request for an HTTP driver. It has no `Debug`: [`HttpRequest::debug_string`] is what may
/// be shown of it.
#[derive(Clone, PartialEq, Eq)]
pub struct HttpRequest {
    /// The method, such as `GET` or `POST`.
    pub method: String,
    /// The whole URL.
    pub url: String,
    /// The headers, name and value, in order.
    pub headers: Vec<(String, String)>,
    /// The body, where there is one.
    pub body: Option<Bytes>,
}

/// A response, of which status and body are kept. [`HttpResponse::debug_string`] is what may
/// be shown of it.
#[derive(Clone, PartialEq, Eq)]
pub struct HttpResponse {
    /// The status code.
    pub status: u16,
    /// The body.
    pub body: Bytes,
}

/// A request as mathematical values.
pub struct RequestView {
    pub method: Seq<char>,
    pub url: Seq<char>,
    pub headers: Seq<(Seq<char>, Seq<char>)>,
    pub body: Option<Seq<u8>>,
}

/// A response as mathematical values.
pub struct ResponseView {
    pub status: u16,
    pub body: Seq<u8>,
}

impl View for HttpRequest {
    type V = RequestView;

    open spec fn view(&self) -> RequestView {
        RequestView {
            method: self.method@,
            url: self.url@,
            headers: crate::redact::header_pairs(self.headers@),
            body: crate::payload::optional_contents(self.body),
        }
    }
}

impl View for HttpResponse {
    type V = ResponseView;

    open spec fn view(&self) -> ResponseView {
        ResponseView { status: self.status, body: crate::payload::contents(self.body) }
    }
}

/// The length of an optional body.
pub open spec fn body_len(body: Option<Seq<u8>>) -> Option<nat> {
    match body {
        Some(b) => Some(b.len()),
        None => None,
    }
}

/// What is shown of a request: the method, the origin of the URL, the headers with sensitive
/// values masked, and the length of the body.
pub open spec fn shown_request(r: RequestView) -> Seq<char> {
    "HttpRequest { method: "@ + crate::text::quoted_text(r.method) + ", url: "@
        + crate::url::shown_url(crate::url::parsed_url(r.url)) + ", headers: "@
        + crate::redact::shown_headers(r.headers) + ", body: "@ + crate::redact::shown_body(
        body_len(r.body),
    ) + " }"@
}

/// What is shown of a response: the status and the length of the body.
pub open spec fn shown_response(r: ResponseView) -> Seq<char> {
    "HttpResponse { status: "@ + crate::text::decimal(r.status as nat) + ", body: "@
        + crate::redact::shown_body(Some(r.body.len())) + " }"@
}

impl HttpRequest {
    /// The redacted text of the request.
    pub fn debug_string(&self) -> (r: String)
        ensures
            r@ == shown_request(self@),
    {
        let len: Option<usize> = match &self.body {
            Some(body) => Some(body.len()),
            None => None,
        };
        let method: String = quoted(self.method.as_str());
        let url: String = redacted_url(self.url.as_str());
        let headers: String = headers_text(&self.headers);
        let body: String = body_text(len);
        let mut out: String = "HttpRequest { method: ".to_owned();
        out.append(method.as_str());
        out.append(", url: ");
        out.append(url.as_str());
        out.append(", headers: ");
        out.append(headers.as_str());
        out.append(", body: ");
        out.append(body.as_str());
        out.append(" }");
        out
    }
}

impl HttpResponse {
    /// The redacted text of the response.
    pub fn debug_string(&self) -> (r: String)
        ensures
            r@ == shown_response(self@),
    {
        let body: String = body_text(Some(self.body.len()));
        let mut out: String = "HttpResponse { status: ".to_owned();
        push_decimal(&mut out, self.status as u64);
        out.append(", body: ");
        out.append(body.as_str());
        out.append(" }");
        out
    }
}

/// The shown text of a request depends on its method, the origin of its URL, its header
/// names, the values of headers that are not sensitive, and the length of its body: two
/// requests that agree on these are shown alike, whatever path, query, user name, secret or
/// payload they carry.
pub proof fn law_request_text_hides_the_rest(a: RequestView, b: RequestView)
    requires
        a.method == b.method,
        crate::url::usable_origin(crate::url::parsed_url(a.url)) == crate::url::usable_origin(
            crate::url::parsed_url(b.url),
        ),
        crate::redact::same_public_headers(a.headers, b.headers),
        body_len(a.body) == body_len(b.body),
    ensures
        shown_request(a) == shown_request(b),
{
    crate::redact::law_headers_hide_sensitive_values(a.headers, b.headers);
}

/// The shown text of a response depends on its status and the length of its body alone.
pub proof fn law_response_text_hides_the_body(a: ResponseView, b: ResponseView)
    requires
        a.status == b.status,
        a.body.len() == b.body.len(),
    ensures
        shown_response(a) == shown_response(b),
{
}

/// A request is known by its method, its URL, its headers one for one, and the bytes of its
/// body; a response by its status and the bytes of its body.
pub proof fn law_messages_are_known_by_all_their_parts(q: HttpRequest, p: HttpResponse)
    ensures
        q@.method == q.method@,
        q@.url == q.url@,
        q@.headers.len() == q.headers@.len(),
        forall|i: int|
            #![trigger q@.headers[i]]
            0 <= i < q.headers@.len() ==> q@.headers[i].0 == q.headers@[i].0@ && q@.headers[i].1
                == q.headers@[i].1@,
        q@.body is Some <==> q.body is Some,
        q.body matches Some(b) ==> q@.body == Some(crate::payload::contents(b)),
        p@.status == p.status,
        p@.body == crate::payload::contents(p.body),
{
}

/// What is shown of a request is its method, the origin of its URL, its headers as they may be
/// shown and the length of its body, in that order; of a response, its status and the length
/// of its body.
pub proof fn law_what_is_shown_of_messages(q: RequestView, p: ResponseView)
    ensures
        shown_request(q) == "HttpRequest { method: "@ + crate::text::quoted_text(q.method)
            + ", url: "@ + crate::url::shown_url(crate::url::parsed_url(q.url)) + ", headers: "@
            + crate::redact::shown_headers(q.headers) + ", body: "@ + (match q.body {
            Some(b) => "Some(<"@ + crate::text::decimal(b.len()) + " bytes>)"@,
            None => "None"@,
        }) + " }"@,
        shown_response(p) == "HttpResponse { status: "@ + crate::text::decimal(p.status as nat)
            + ", body: "@ + ("Some(<"@ + crate::text::decimal(p.body.len()) + " bytes>)"@) + " }"@,
{
}

} // verus!
