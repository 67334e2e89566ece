//! One exchange of the HTTP driver: the request that goes out, and the reply that comes in.
//!
//! The driver does no I/O of its own. [`ReqwestHttpDriver::prepare`] turns a request into the
//! one that the client sends; [`ReqwestHttpDriver::open_response`] takes the head of the
//! reply, and the [`ResponseReader`] that it gives takes the body, chunk by chunk.

use crate::client::{
    build_request, draft_body, draft_header, draft_request, method_from_bytes, OutgoingView,
    MAX_HEADER_NAMES,
};
use crate::error::{ErrorView, TransportError};
use crate::http::{map_reqwest_error, ReqwestHttpDriver};
use crate::message::{HttpRequest, HttpResponse, RequestView, ResponseView};
use crate::payload::{bytes_as_slice, bytes_from_vec};
use crate::retry_after::retry_after_header;
use crate::text::{lower_chars, same_chars};
use crate::time::UnixTime;
use bytes::Bytes;
use reqwest::{Method, Request, RequestBuilder};
use vstd::prelude::*;

verus! {

/// Whether a payload of `len` bytes is over `limit`; a limit of zero is none.
pub open spec fn over_limit(limit: nat, len: nat) -> bool {
    limit > 0 && len > limit
}

// ---------------------------------------------------------------------------
// The request
// ---------------------------------------------------------------------------

/// The request that goes out for a given one: the same in every part.
pub open spec fn outgoing(r: RequestView) -> OutgoingView {
    OutgoingView {
        method: vstd::utf8::encode_utf8(r.method),
        url: r.url,
        headers: r.headers,
        body: r.body,
    }
}

/// The error with which a request is refused before its URL and headers are looked at, where
/// it is: a body over the limit, then a method that is none.
pub open spec fn early_error(limit: nat, r: RequestView) -> Option<ErrorView> {
    if r.body matches Some(body) && over_limit(limit, body.len()) {
        Some(
            ErrorView::PayloadTooLarge { kind: "request_body"@, limit, got: r.body->Some_0.len() },
        )
    } else if !crate::client::is_method(vstd::utf8::encode_utf8(r.method)) {
        Some(ErrorView::ProtocolViolation("invalid HTTP method"@))
    } else {
        None
    }
}

/// The error with which a request is refused before anything is sent, where it is: a body
/// over the limit, then a method that is none, then a URL or header that cannot be used.
pub open spec fn request_error(limit: nat, r: RequestView) -> Option<ErrorView> {
    match early_error(limit, r) {
        Some(e) => Some(e),
        None => match crate::client::request_refusal(r.url, r.headers) {
            Some(text) => Some(ErrorView::ProtocolViolation(text)),
            None => None,
        },
    }
}

proof fn lemma_names_of_prefix(headers: Seq<(Seq<char>, Seq<char>)>, k: int)
    requires
        0 <= k <= headers.len(),
    ensures
        crate::client::header_names(headers.take(k)).len() <= crate::client::header_names(
            headers,
        ).len(),
{
    let part = crate::client::lower_names(headers.take(k));
    let all = crate::client::lower_names(headers);
    vstd::seq_lib::seq_to_set_is_finite(all);
    assert(part.to_set().subset_of(all.to_set())) by {
        assert forall|n: Seq<char>| part.to_set().contains(n) implies all.to_set().contains(n) by {
            let i = choose|i: int| 0 <= i < part.len() && part[i] == n;
            assert(all[i] == n);
        }
    }
    vstd::set_lib::lemma_len_subset(part.to_set(), all.to_set());
}

spec fn spelled(words: Seq<Vec<char>>) -> Seq<Seq<char>> {
    words.map_values(|w: Vec<char>| w@)
}

proof fn lemma_contains_after_push<A>(s: Seq<A>, a: A, b: A)
    ensures
        s.push(a).contains(b) <==> s.contains(b) || a == b,
{
    if s.contains(b) {
        let i = choose|i: int| 0 <= i < s.len() && s[i] == b;
        assert(s.push(a)[i] == b);
    }
    if a == b {
        assert(s.push(a)[s.len() as int] == b);
    }
}

/// Whether the header table of the client has room for these headers, however many values
/// each name has.
pub fn header_names_fit(headers: &Vec<(String, String)>) -> (r: bool)
    ensures
        r == (crate::client::header_names(crate::redact::header_pairs(headers@)).len()
            <= MAX_HEADER_NAMES),
        headers@.len() <= 6_552 ==> r,
        r ==> crate::client::header_names(crate::redact::header_pairs(headers@)).len() <= 6_552,
{
    let ghost names = crate::client::lower_names(crate::redact::header_pairs(headers@));
    if headers.len() <= MAX_HEADER_NAMES {
        proof {
            names.lemma_cardinality_of_set();
        }
        return true;
    }
    let mut seen: Vec<Vec<char>> = Vec::new();
    let mut i: usize = 0;
    while i < headers.len()
        invariant
            i <= headers.len(),
            names == crate::client::lower_names(crate::redact::header_pairs(headers@)),
            spelled(seen@).no_duplicates(),
            spelled(seen@).to_set() == names.take(i as int).to_set(),
        decreases headers.len() - i,
    {
        let name: Vec<char> = lower_chars(headers[i].0.as_str());
        let mut k: usize = 0;
        let mut known: bool = false;
        while k < seen.len()
            invariant
                k <= seen.len(),
                known == spelled(seen@).take(k as int).contains(name@),
            decreases seen.len() - k,
        {
            if same_chars(&seen[k], &name) {
                known = true;
            }
            proof {
                let words = spelled(seen@);
                assert(words.take(k + 1) =~= words.take(k as int).push(words[k as int]));
                lemma_contains_after_push(words.take(k as int), words[k as int], name@);
            }
            k = k + 1;
        }
        let ghost before = spelled(seen@);
        let ghost word = name@;
        assert(before.take(k as int) =~= before);
        if !known {
            seen.push(name);
            assert(spelled(seen@) =~= before.push(word));
        }
        proof {
            let next = names.take(i + 1);
            assert(next =~= names.take(i as int).push(word));
            assert forall|n: Seq<char>| spelled(seen@).contains(n) <==> next.contains(n) by {
                lemma_contains_after_push(names.take(i as int), word, n);
                lemma_contains_after_push(before, word, n);
                assert(before.to_set().contains(n) <==> names.take(i as int).to_set().contains(n));
            }
            assert(spelled(seen@).to_set() =~= next.to_set());
        }
        i = i + 1;
    }
    proof {
        spelled(seen@).unique_seq_to_set();
        assert(names.take(i as int) =~= names);
    }
    seen.len() <= MAX_HEADER_NAMES
}

impl ReqwestHttpDriver {
    /// The method of a request, or the error with which the request is refused for its body or
    /// its method. However many headers it has, none of them is looked at.
    pub fn request_method(&self, request: &HttpRequest) -> (r: Result<Method, TransportError>)
        ensures
            match r {
                Ok(m) => early_error(self@.request_limit, request@) is None
                    && crate::client::method_bytes(m) == vstd::utf8::encode_utf8(request@.method),
                Err(e) => early_error(self@.request_limit, request@) == Some(e@),
            },
            r is Ok ==> (request.body matches Some(b) ==> self@.request_limit == 0
                || crate::payload::contents(b).len() <= self@.request_limit),
            request.body matches Some(b) ==> (self@.request_limit > 0 && crate::payload::contents(
                b,
            ).len() > self@.request_limit ==> (r matches Err(e) && e@ == (
            ErrorView::PayloadTooLarge {
                kind: "request_body"@,
                limit: self@.request_limit,
                got: crate::payload::contents(b).len(),
            }))),
    {
        let limit: usize = self.max_request_body_bytes();
        if let Some(body) = &request.body {
            if limit > 0 && body.len() > limit {
                return Err(
                    TransportError::PayloadTooLarge {
                        kind: "request_body",
                        limit,
                        got: body.len(),
                    },
                );
            }
        }
        match method_from_bytes(request.method.as_str().as_bytes()) {
            Ok(method) => Ok(method),
            Err(text) => Err(TransportError::ProtocolViolation(text)),
        }
    }

    /// The request to send, or the error with which it is refused. A request that is refused
    /// for its body or its method may have any number of headers.
    pub fn prepare(&self, request: HttpRequest) -> (r: Result<Request, TransportError>)
        requires
            early_error(self@.request_limit, request@) is None ==> crate::client::header_names(
                request@.headers,
            ).len() <= MAX_HEADER_NAMES,
        ensures
            match r {
                Ok(q) => request_error(self@.request_limit, request@) is None
                    && crate::client::requested(q) == outgoing(request@),
                Err(e) => request_error(self@.request_limit, request@) == Some(e@),
            },
            r matches Ok(q) ==> {
                let sent = crate::client::requested(q);
                &&& sent.method == vstd::utf8::encode_utf8(request.method@)
                &&& sent.url == request.url@
                &&& sent.headers.len() == request.headers@.len()
                &&& forall|i: int|
                    #![trigger sent.headers[i]]
                    0 <= i < request.headers@.len() ==> sent.headers[i].0
                        == request.headers@[i].0@ && sent.headers[i].1 == request.headers@[i].1@
                &&& sent.body is Some <==> request.body is Some
                &&& request.body matches Some(b) ==> sent.body == Some(
                    crate::payload::contents(b),
                )
            },
    {
        let method: Method = match self.request_method(&request) {
            Ok(method) => method,
            Err(error) => return Err(error),
        };
        let mut builder: RequestBuilder = draft_request(
            self.client(),
            method,
            request.url.as_str(),
        );
        let ghost pairs = request@.headers;
        assert(pairs.take(0) =~= Seq::empty());
        let mut i: usize = 0;
        while i < request.headers.len()
            invariant
                i <= request.headers@.len(),
                crate::client::header_names(pairs).len() <= MAX_HEADER_NAMES,
                pairs == crate::redact::header_pairs(request.headers@),
                crate::client::drafted(builder) == (OutgoingView {
                    headers: pairs.take(i as int),
                    body: None,
                    ..outgoing(request@)
                }),
            decreases request.headers.len() - i,
        {
            let pair: &(String, String) = &request.headers[i];
            proof {
                assert(pairs.take(i + 1) =~= pairs.take(i as int).push(pairs[i as int]));
                lemma_names_of_prefix(pairs, i + 1);
            }
            builder = draft_header(builder, pair.0.clone(), pair.1.clone());
            i = i + 1;
        }
        assert(pairs.take(i as int) =~= pairs);
        match &request.body {
            Some(body) => {
                builder = draft_body(builder, body.clone());
            },
            None => {},
        }
        match build_request(builder) {
            Ok(request) => Ok(request),
            Err(error) => Err(map_reqwest_error(error)),
        }
    }
}

// ---------------------------------------------------------------------------
// The response
// ---------------------------------------------------------------------------

/// A length that the head of a reply declares, as far as this machine can count.
pub open spec fn counted(len: u64) -> nat {
    if len <= usize::MAX {
        len as nat
    } else {
        usize::MAX as nat
    }
}

/// The error that the head of a reply is, where it is one: a rate limit for status 429,
/// whatever else it says; otherwise a declared length over the limit.
pub open spec fn head_error(
    limit: nat,
    status: u16,
    retry_after: Option<Seq<u8>>,
    content_length: Option<u64>,
    now: int,
) -> Option<ErrorView> {
    if status == 429 {
        Some(
            ErrorView::RateLimited {
                retry_after: crate::retry_after::header_wait(retry_after, now),
            },
        )
    } else if content_length matches Some(len) && over_limit(limit, counted(len)) {
        Some(
            ErrorView::PayloadTooLarge {
                kind: "response_body"@,
                limit,
                got: counted(content_length->Some_0),
            },
        )
    } else {
        None
    }
}

/// A body that is being read.
#[verifier::ext_equal]
pub struct ReaderView {
    /// The status of the reply.
    pub status: u16,
    /// The limit on the body; zero for none.
    pub limit: nat,
    /// What has been read so far.
    pub body: Seq<u8>,
}

/// Reads the body of a reply. It holds what has come so far, which is never over the limit.
pub struct ResponseReader {
    status: u16,
    limit: usize,
    body: Vec<u8>,
}

impl View for ResponseReader {
    type V = ReaderView;

    closed spec fn view(&self) -> ReaderView {
        ReaderView { status: self.status, limit: self.limit as nat, body: self.body@ }
    }
}

/// The length of a body together with one more chunk, as far as this machine can count.
pub open spec fn counted_with(body: Seq<u8>, chunk: Seq<u8>) -> nat {
    if body.len() + chunk.len() <= usize::MAX {
        body.len() + chunk.len()
    } else {
        usize::MAX as nat
    }
}

/// What one more chunk makes of a body: the body with the chunk behind it, or, where that is
/// over the limit, an error that says how long it would have been.
pub open spec fn with_chunk(v: ReaderView, chunk: Seq<u8>) -> Result<ReaderView, ErrorView> {
    let got = counted_with(v.body, chunk);
    if over_limit(v.limit, got) {
        Err(ErrorView::PayloadTooLarge { kind: "response_body"@, limit: v.limit, got })
    } else {
        Ok(ReaderView { body: v.body + chunk, ..v })
    }
}

impl ReqwestHttpDriver {
    /// A reader for the body of a reply, given its head: the status, the bytes of the
    /// `Retry-After` header and the declared length, where there are any, and the time.
    pub fn open_response(
        &self,
        status: u16,
        retry_after: &Option<Vec<u8>>,
        content_length: Option<u64>,
        now: UnixTime,
    ) -> (r: Result<ResponseReader, TransportError>)
        ensures
            ({
                let refused = head_error(
                    self@.response_limit,
                    status,
                    (match *retry_after {
                        Some(raw) => Some(raw@),
                        None => None,
                    }),
                    content_length,
                    now@,
                );
                match r {
                    Ok(reader) => refused is None && reader@ == (ReaderView {
                        status,
                        limit: self@.response_limit,
                        body: Seq::empty(),
                    }),
                    Err(e) => refused == Some(e@),
                }
            }),
            status == 429 ==> (r matches Err(e) && e@ is RateLimited),
            r matches Ok(reader) ==> reader@.status == status && reader@.limit
                == self@.response_limit && reader@.body.len() == 0,
            status != 429 && content_length is None ==> r is Ok,
    {
        let limit: usize = self.max_response_body_bytes();
        if status == 429 {
            return Err(
                TransportError::RateLimited { retry_after: retry_after_header(retry_after, now) },
            );
        }
        if let Some(len) = content_length {
            let got: usize = if len <= usize::MAX as u64 {
                len as usize
            } else {
                usize::MAX
            };
            if limit > 0 && got > limit {
                return Err(TransportError::PayloadTooLarge { kind: "response_body", limit, got });
            }
        }
        Ok(ResponseReader { status, limit, body: Vec::new() })
    }
}

impl ResponseReader {
    #[verifier::type_invariant]
    spec fn within_limit(self) -> bool {
        !over_limit(self.limit as nat, self.body@.len())
    }

    /// The number of bytes read so far.
    pub fn len(&self) -> (r: usize)
        ensures
            r == self@.body.len(),
            !over_limit(self@.limit, self@.body.len()),
            self@.limit == 0 || r <= self@.limit,
    {
        proof {
            use_type_invariant(self);
        }
        self.body.len()
    }

    /// Takes one more chunk. The first chunk that takes the body over the limit ends the
    /// reader: nothing of the body is handed out.
    pub fn push_chunk(self, chunk: &Bytes) -> (r: Result<Self, TransportError>)
        requires
            with_chunk(self@, crate::payload::contents(*chunk)) is Ok ==> self@.body.len()
                + crate::payload::contents(*chunk).len() <= isize::MAX,
        ensures
            match r {
                Ok(reader) => with_chunk(self@, crate::payload::contents(*chunk)) == Ok::<
                    ReaderView,
                    ErrorView,
                >(reader@),
                Err(e) => with_chunk(self@, crate::payload::contents(*chunk)) == Err::<
                    ReaderView,
                    ErrorView,
                >(e@),
            },
            r matches Ok(reader) ==> {
                &&& reader@.status == self@.status
                &&& reader@.limit == self@.limit
                &&& reader@.body == self@.body + crate::payload::contents(*chunk)
                &&& reader@.limit == 0 || reader@.body.len() <= reader@.limit
            },
            r is Err <==> self@.limit > 0 && self@.body.len() + crate::payload::contents(
                *chunk,
            ).len() > self@.limit,
            r matches Err(e) ==> e@ is PayloadTooLarge,
    {
        let ResponseReader { status, limit, mut body } = self;
        let got: usize = body.len().saturating_add(chunk.len());
        if limit > 0 && got > limit {
            return Err(TransportError::PayloadTooLarge { kind: "response_body", limit, got });
        }
        let ghost before = body@;
        body.extend_from_slice(bytes_as_slice(chunk));
        assert(body@ =~= before + crate::payload::contents(*chunk));
        Ok(ResponseReader { status, limit, body })
    }

    /// The response, once the body has ended.
    pub fn finish(self) -> (r: HttpResponse)
        ensures
            r@ == (ResponseView { status: self@.status, body: self@.body }),
            !over_limit(self@.limit, r@.body.len()),
            r.status == self@.status,
            crate::payload::contents(r.body) == self@.body,
            self@.limit == 0 || crate::payload::contents(r.body).len() <= self@.limit,
    {
        proof {
            use_type_invariant(&self);
        }
        HttpResponse { status: self.status, body: bytes_from_vec(self.body) }
    }
}

// ---------------------------------------------------------------------------
// Laws
// ---------------------------------------------------------------------------

/// The bytes of chunks, one behind the other.
pub open spec fn joined(chunks: Seq<Seq<u8>>) -> Seq<u8>
    decreases chunks.len(),
{
    if chunks.len() == 0 {
        Seq::empty()
    } else {
        joined(chunks.drop_last()) + chunks.last()
    }
}

/// What a reader makes of a run of chunks: each is taken in turn, and the first error ends
/// the run.
pub open spec fn with_chunks(v: ReaderView, chunks: Seq<Seq<u8>>) -> Result<ReaderView, ErrorView>
    decreases chunks.len(),
{
    if chunks.len() == 0 {
        Ok(v)
    } else {
        match with_chunks(v, chunks.drop_last()) {
            Ok(w) => with_chunk(w, chunks.last()),
            Err(e) => Err(e),
        }
    }
}

proof fn lemma_joined_grows(chunks: Seq<Seq<u8>>, k: int)
    requires
        0 <= k <= chunks.len(),
    ensures
        joined(chunks.take(k)).len() <= joined(chunks).len(),
    decreases chunks.len(),
{
    if k == chunks.len() {
        assert(chunks.take(k) =~= chunks);
    } else {
        lemma_joined_grows(chunks.drop_last(), k);
        assert(chunks.drop_last().take(k) =~= chunks.take(k));
    }
}

/// A body that stays within the limit is delivered whole: what the reader holds in the end is
/// the chunks, joined in order. A limit of zero lets every body through.
pub proof fn law_body_within_limit_is_whole(v: ReaderView, chunks: Seq<Seq<u8>>)
    requires
        v.body.len() + joined(chunks).len() <= usize::MAX,
        !over_limit(v.limit, v.body.len() + joined(chunks).len()),
    ensures
        with_chunks(v, chunks) == Ok::<ReaderView, ErrorView>(
            ReaderView { body: v.body + joined(chunks), ..v },
        ),
    decreases chunks.len(),
{
    if chunks.len() == 0 {
        assert(v.body + joined(chunks) =~= v.body);
    } else {
        law_body_within_limit_is_whole(v, chunks.drop_last());
        assert(v.body + joined(chunks) =~= v.body + joined(chunks.drop_last()) + chunks.last());
    }
}

/// The first chunk that takes a body over the limit ends the exchange, whatever was still to
/// come, with an error that says how many bytes had come up to and including that chunk.
pub proof fn law_first_overflow_aborts(v: ReaderView, chunks: Seq<Seq<u8>>, k: int)
    requires
        0 <= k < chunks.len(),
        v.body.len() + joined(chunks).len() <= usize::MAX,
        !over_limit(v.limit, v.body.len() + joined(chunks.take(k)).len()),
        over_limit(v.limit, v.body.len() + joined(chunks.take(k + 1)).len()),
    ensures
        with_chunks(v, chunks) == Err::<ReaderView, ErrorView>(
            ErrorView::PayloadTooLarge {
                kind: "response_body"@,
                limit: v.limit,
                got: v.body.len() + joined(chunks.take(k + 1)).len(),
            },
        ),
    decreases chunks.len(),
{
    let rest = chunks.drop_last();
    if k == chunks.len() - 1 {
        assert(chunks.take(k + 1) =~= chunks);
        assert(chunks.take(k) =~= rest);
        law_body_within_limit_is_whole(v, rest);
    } else {
        assert(rest.take(k) =~= chunks.take(k));
        assert(rest.take(k + 1) =~= chunks.take(k + 1));
        law_first_overflow_aborts(v, rest, k);
    }
}

/// No body over the limit is ever delivered, whole or in part.
pub proof fn law_no_body_over_the_limit(v: ReaderView, chunks: Seq<Seq<u8>>)
    requires
        !over_limit(v.limit, v.body.len()),
        v.body.len() + joined(chunks).len() <= usize::MAX,
    ensures
        with_chunks(v, chunks) is Ok <==> !over_limit(
            v.limit,
            v.body.len() + joined(chunks).len(),
        ),
        with_chunks(v, chunks) matches Ok(w) ==> !over_limit(w.limit, w.body.len()),
    decreases chunks.len(),
{
    if chunks.len() > 0 {
        law_no_body_over_the_limit(v, chunks.drop_last());
        lemma_joined_grows(chunks, chunks.len() - 1);
        assert(chunks.take(chunks.len() - 1) =~= chunks.drop_last());
        if !over_limit(v.limit, v.body.len() + joined(chunks.drop_last()).len()) {
            law_body_within_limit_is_whole(v, chunks.drop_last());
        }
    }
}

/// What comes of a reply, given its head and its chunks.
pub open spec fn reply_result(
    limit: nat,
    status: u16,
    retry_after: Option<Seq<u8>>,
    content_length: Option<u64>,
    now: int,
    chunks: Seq<Seq<u8>>,
) -> Result<ResponseView, ErrorView> {
    match head_error(limit, status, retry_after, content_length, now) {
        Some(e) => Err(e),
        None => match with_chunks(ReaderView { status, limit, body: Seq::empty() }, chunks) {
            Ok(v) => Ok(ResponseView { status: v.status, body: v.body }),
            Err(e) => Err(e),
        },
    }
}

/// A response is the reply as it came: its status, which is not 429, and all of its chunks,
/// within the limit however long the head said the body was. A reply that is within the limit
/// in what it declares and in what it holds is such a response.
pub proof fn law_response_is_the_whole_reply(
    limit: nat,
    status: u16,
    retry_after: Option<Seq<u8>>,
    content_length: Option<u64>,
    now: int,
    chunks: Seq<Seq<u8>>,
)
    requires
        joined(chunks).len() <= usize::MAX,
    ensures
        reply_result(limit, status, retry_after, content_length, now, chunks) matches Ok(r) ==> {
            &&& r == (ResponseView { status, body: joined(chunks) })
            &&& status != 429
            &&& !over_limit(limit, joined(chunks).len())
        },
        status != 429 && !over_limit(limit, joined(chunks).len()) && (content_length matches Some(
            len,
        ) ==> !over_limit(limit, counted(len))) ==> reply_result(
            limit,
            status,
            retry_after,
            content_length,
            now,
            chunks,
        ) is Ok,
{
    let start = ReaderView { status, limit, body: Seq::empty() };
    law_no_body_over_the_limit(start, chunks);
    if !over_limit(limit, joined(chunks).len()) {
        law_body_within_limit_is_whole(start, chunks);
        assert(start.body + joined(chunks) =~= joined(chunks));
    }
}

/// Status 429 is a rate limit, whatever else the head of the reply says, and no other status
/// is: every other reply, an error status included, is read as a response.
pub proof fn law_only_429_is_a_rate_limit(
    limit: nat,
    status: u16,
    retry_after: Option<Seq<u8>>,
    content_length: Option<u64>,
    now: int,
)
    ensures
        head_error(limit, status, retry_after, content_length, now) matches Some(
            ErrorView::RateLimited { .. },
        ) <==> status == 429,
        status != 429 && limit == 0 ==> head_error(
            limit,
            status,
            retry_after,
            content_length,
            now,
        ) is None,
{
}

/// A request body is refused for its size exactly where it is over the limit, with an error
/// that says both, whatever is wrong with the method, the URL or the headers and however many
/// there are. A body of just the limit, and no body, never are.
pub proof fn law_request_body_limit_comes_first(limit: nat, r: RequestView)
    ensures
        request_error(limit, r) matches Some(ErrorView::PayloadTooLarge { .. }) <==> (
        r.body matches Some(body) && over_limit(limit, body.len())),
        r.body matches Some(body) && over_limit(limit, body.len()) ==> request_error(limit, r)
            == early_error(limit, r) && request_error(limit, r) == Some(
            ErrorView::PayloadTooLarge {
                kind: "request_body"@,
                limit,
                got: r.body->Some_0.len(),
            },
        ),
{
}

// ---------------------------------------------------------------------------
// Laws in plain terms
// ---------------------------------------------------------------------------

/// A payload is over a limit exactly where there is one, that is, it is not zero, and the
/// payload is longer.
pub proof fn law_a_limit_is_a_plain_bound(limit: nat, len: nat)
    ensures
        over_limit(limit, len) <==> limit > 0 && len > limit,
{
}

/// What goes out is what was given: the method, the URL, the headers and the body, each of
/// them the same, for every request.
pub proof fn law_what_goes_out_is_what_was_given(r: RequestView)
    ensures
        outgoing(r).method == vstd::utf8::encode_utf8(r.method),
        outgoing(r).url == r.url,
        outgoing(r).headers == r.headers,
        outgoing(r).body == r.body,
{
}

/// A request is refused before it is sent for four reasons, in this order: its body is longer
/// than the limit; its method is no token; its URL or one of its headers cannot be used. A
/// request for which none of them holds is sent.
pub proof fn law_why_a_request_is_refused(limit: nat, r: RequestView)
    ensures
        ({
            let too_long = r.body matches Some(b) && limit > 0 && b.len() > limit;
            let token = crate::client::is_method(vstd::utf8::encode_utf8(r.method));
            let refusal = crate::client::request_refusal(r.url, r.headers);
            &&& too_long ==> request_error(limit, r) == Some(
                ErrorView::PayloadTooLarge {
                    kind: "request_body"@,
                    limit,
                    got: r.body->Some_0.len(),
                },
            )
            &&& !too_long && !token ==> request_error(limit, r) == Some(
                ErrorView::ProtocolViolation("invalid HTTP method"@),
            )
            &&& !too_long && token ==> match refusal {
                Some(text) => request_error(limit, r) == Some(ErrorView::ProtocolViolation(text)),
                None => request_error(limit, r) is None,
            }
            &&& early_error(limit, r) is Some <==> too_long || !token
            &&& early_error(limit, r) is Some ==> early_error(limit, r) == request_error(limit, r)
        }),
{
}

/// The head of a reply with status 429 is a rate limit with the wait that its header asks for.
/// Any other is refused exactly where there is a limit and the declared length, as far as it
/// can be counted, is more; and otherwise its body is read.
pub proof fn law_what_the_head_of_a_reply_means(
    limit: nat,
    status: u16,
    retry_after: Option<Seq<u8>>,
    content_length: Option<u64>,
    now: int,
)
    requires
        limit <= usize::MAX,
    ensures
        ({
            let e = head_error(limit, status, retry_after, content_length, now);
            let too_long = content_length matches Some(n) && limit > 0 && n > limit
                && usize::MAX > limit;
            &&& status == 429 ==> e == Some(
                ErrorView::RateLimited {
                    retry_after: crate::retry_after::header_wait(retry_after, now),
                },
            )
            &&& status != 429 && too_long ==> e == Some(
                ErrorView::PayloadTooLarge {
                    kind: "response_body"@,
                    limit,
                    got: if content_length->Some_0 <= usize::MAX {
                        content_length->Some_0 as nat
                    } else {
                        usize::MAX as nat
                    },
                },
            )
            &&& status != 429 && !too_long ==> e is None
        }),
{
}

/// A reply with status 429 whose `Retry-After` header spells a number of seconds is a rate
/// limit of just that many, whatever the number, the time and the rest of the reply.
pub proof fn law_rate_limits_carry_the_seconds_of_the_header(
    limit: nat,
    secs: u64,
    raw: Seq<u8>,
    content_length: Option<u64>,
    now: int,
)
    requires
        raw.len() == crate::text::decimal(secs as nat).len(),
        forall|i: int|
            0 <= i < raw.len() ==> #[trigger] raw[i] as int == crate::text::decimal(
                secs as nat,
            )[i] as int,
    ensures
        head_error(limit, 429, Some(raw), content_length, now) == Some(
            ErrorView::RateLimited { retry_after: Some((secs * 1_000_000_000) as nat) },
        ),
{
    crate::retry_after::law_seconds_in_a_header_are_read_back(secs, raw, now);
}

/// One more chunk goes behind what was read, and nothing else changes, exactly where there is
/// no limit or the two together are not longer than it; otherwise the error says the limit and
/// how long they are together. No length counts for more than the machine can count.
pub proof fn law_a_chunk_is_appended_or_refused(v: ReaderView, chunk: Seq<u8>)
    ensures
        ({
            let sum = v.body.len() + chunk.len();
            let got = if sum <= usize::MAX {
                sum
            } else {
                usize::MAX as nat
            };
            if v.limit == 0 || got <= v.limit {
                with_chunk(v, chunk) matches Ok(w) && w.status == v.status && w.limit == v.limit
                    && w.body == v.body + chunk
            } else {
                with_chunk(v, chunk) == Err::<ReaderView, ErrorView>(
                    ErrorView::PayloadTooLarge { kind: "response_body"@, limit: v.limit, got },
                )
            }
        }),
{
}

/// A run of chunks is taken one by one: none changes nothing, and one more is taken where all
/// before it were, or else the error that they ended with stays.
pub proof fn law_chunks_are_taken_one_by_one(
    v: ReaderView,
    chunks: Seq<Seq<u8>>,
    last: Seq<u8>,
)
    ensures
        with_chunks(v, Seq::empty()) == Ok::<ReaderView, ErrorView>(v),
        with_chunks(v, chunks) matches Ok(w) ==> with_chunks(v, chunks.push(last)) == with_chunk(
            w,
            last,
        ),
        with_chunks(v, chunks) matches Err(e) ==> with_chunks(v, chunks.push(last)) == Err::<
            ReaderView,
            ErrorView,
        >(e),
        joined(Seq::empty()) == Seq::<u8>::empty(),
        joined(chunks.push(last)) == joined(chunks) + last,
{
    assert(chunks.push(last).drop_last() =~= chunks);
    assert(chunks.push(last).last() == last);
}

/// A reply that is no rate limit, and that neither declares nor holds more than the limit,
/// becomes a response with its status and all of its bytes in order. One that holds more never
/// does.
pub proof fn law_replies_are_delivered_whole_or_refused(
    limit: nat,
    status: u16,
    retry_after: Option<Seq<u8>>,
    content_length: Option<u64>,
    now: int,
    chunks: Seq<Seq<u8>>,
)
    requires
        joined(chunks).len() <= usize::MAX,
    ensures
        ({
            let r = reply_result(limit, status, retry_after, content_length, now, chunks);
            &&& status != 429 && (limit == 0 || joined(chunks).len() <= limit) && (
            content_length matches Some(n) ==> limit == 0 || n <= limit) ==> (r matches Ok(p)
                && p.status == status && p.body == joined(chunks))
            &&& limit > 0 && joined(chunks).len() > limit ==> r is Err
            &&& status == 429 ==> r == Err::<ResponseView, ErrorView>(
                ErrorView::RateLimited {
                    retry_after: crate::retry_after::header_wait(retry_after, now),
                },
            )
        }),
{
    law_response_is_the_whole_reply(limit, status, retry_after, content_length, now, chunks);
}

} // verus!
