//! An HTTP transport in memory, for tests: it answers with responses that were set before.

use crate::error::{ErrorView, TransportError};
use crate::message::{HttpRequest, HttpResponse, RequestView, ResponseView};
use crate::text::{same_text, to_chars, to_upper};
use bytes::Bytes;
use vstd::prelude::*;
use vstd::string::StringExecFns;

verus! {

// ---------------------------------------------------------------------------
// Response tables
// ---------------------------------------------------------------------------

/// Responses by URL. No URL has two.
#[derive(Debug)]
pub struct ResponseTable {
    entries: Vec<(String, Bytes)>,
}

/// The responses that a list of entries holds.
pub open spec fn entries_map(entries: Seq<(String, Bytes)>) -> Map<Seq<char>, Seq<u8>>
    decreases entries.len(),
{
    if entries.len() == 0 {
        Map::empty()
    } else {
        entries_map(entries.drop_last()).insert(
            entries.last().0@,
            crate::payload::contents(entries.last().1),
        )
    }
}

spec fn distinct(entries: Seq<(String, Bytes)>) -> bool {
    forall|i: int, j: int|
        0 <= i < j < entries.len() ==> (#[trigger] entries[i]).0@ != (#[trigger] entries[j]).0@
}

proof fn lemma_entries_map(entries: Seq<(String, Bytes)>, url: Seq<char>)
    ensures
        entries_map(entries).contains_key(url) <==> exists|i: int|
            0 <= i < entries.len() && (#[trigger] entries[i]).0@ == url,
        distinct(entries) ==> forall|i: int|
            0 <= i < entries.len() && (#[trigger] entries[i]).0@ == url ==> entries_map(
                entries,
            )[url] == crate::payload::contents(entries[i].1),
    decreases entries.len(),
{
    if entries.len() > 0 {
        let rest = entries.drop_last();
        lemma_entries_map(rest, url);
        assert(forall|i: int| 0 <= i < rest.len() ==> #[trigger] rest[i] == entries[i]);
        if exists|i: int| 0 <= i < entries.len() && (#[trigger] entries[i]).0@ == url {
            let i = choose|i: int| 0 <= i < entries.len() && (#[trigger] entries[i]).0@ == url;
            if i < rest.len() {
                assert(rest[i].0@ == url);
            }
        }
        if exists|i: int| 0 <= i < rest.len() && (#[trigger] rest[i]).0@ == url {
            let i = choose|i: int| 0 <= i < rest.len() && (#[trigger] rest[i]).0@ == url;
            assert(entries[i].0@ == url);
        }
        assert(entries[entries.len() - 1] == entries.last());
        if distinct(entries) {
            assert(distinct(rest));
            assert forall|i: int|
                0 <= i < entries.len() && (#[trigger] entries[i]).0@ == url implies entries_map(
                entries,
            )[url] == crate::payload::contents(entries[i].1) by {
                if i < rest.len() {
                    assert(rest[i].0@ == url);
                    assert(entries.last().0@ != url);
                }
            }
        }
    }
}

impl View for ResponseTable {
    type V = Map<Seq<char>, Seq<u8>>;

    closed spec fn view(&self) -> Map<Seq<char>, Seq<u8>> {
        entries_map(self.entries@)
    }
}

impl ResponseTable {
    #[verifier::type_invariant]
    spec fn one_response_per_url(self) -> bool {
        distinct(self.entries@)
    }

    /// A table without responses.
    pub fn new() -> (r: Self)
        ensures
            r@ == Map::<Seq<char>, Seq<u8>>::empty(),
    {
        ResponseTable { entries: Vec::new() }
    }

    fn position(&self, url: &str) -> (r: Option<usize>)
        ensures
            match r {
                Some(i) => i < self.entries@.len() && self.entries@[i as int].0@ == url@,
                None => forall|i: int|
                    0 <= i < self.entries@.len() ==> (#[trigger] self.entries@[i]).0@ != url@,
            },
    {
        let wanted: String = url.to_owned();
        let mut i: usize = 0;
        while i < self.entries.len()
            invariant
                wanted@ == url@,
                forall|k: int| 0 <= k < i ==> (#[trigger] self.entries@[k]).0@ != url@,
            decreases self.entries.len() - i,
        {
            if self.entries[i].0 == wanted {
                return Some(i);
            }
            i = i + 1;
        }
        None
    }

    /// Sets the response for a URL, in place of one that was set before.
    pub fn insert(&mut self, url: &str, response: Bytes)
        ensures
            final(self)@ == old(self)@.insert(url@, crate::payload::contents(response)),
    {
        proof {
            use_type_invariant(&*self);
        }
        let ghost before = self.entries@;
        let found: Option<usize> = self.position(url);
        let mut entries: Vec<(String, Bytes)> = Vec::new();
        std::mem::swap(&mut entries, &mut self.entries);
        let entry: (String, Bytes) = (url.to_owned(), response);
        let ghost added = entry;
        match found {
            Some(i) => {
                entries.set(i, entry);
                assert(entries@ == before.update(i as int, added));
            },
            None => {
                entries.push(entry);
                assert(entries@ == before.push(added));
            },
        }
        proof {
            assert(distinct(entries@));
            let after = entries_map(before).insert(url@, crate::payload::contents(response));
            assert forall|u: Seq<char>| #[trigger]
                entries_map(entries@).contains_key(u) == after.contains_key(u) && (
                after.contains_key(u) ==> entries_map(entries@)[u] == after[u]) by {
                lemma_entries_map(before, u);
                lemma_entries_map(entries@, u);
                let at = match found {
                    Some(i) => i as int,
                    None => before.len() as int,
                };
                assert(entries@[at].0@ == url@);
                if exists|i: int| 0 <= i < before.len() && (#[trigger] before[i]).0@ == u {
                    let i = choose|i: int| 0 <= i < before.len() && (#[trigger] before[i]).0@ == u;
                    assert(entries@[i].0@ == u);
                }
                if exists|i: int| 0 <= i < entries@.len() && (#[trigger] entries@[i]).0@ == u {
                    let i = choose|i: int|
                        0 <= i < entries@.len() && (#[trigger] entries@[i]).0@ == u;
                    if i != at {
                        assert(before[i].0@ == u);
                    }
                }
            }
            assert(entries_map(entries@) =~= after);
        }
        self.entries = entries;
    }

    /// The response that is set for a URL.
    pub fn get(&self, url: &str) -> (r: Option<Bytes>)
        ensures
            match r {
                Some(b) => self@.contains_key(url@) && self@[url@] == crate::payload::contents(b),
                None => !self@.contains_key(url@),
            },
    {
        proof {
            use_type_invariant(self);
            lemma_entries_map(self.entries@, url@);
        }
        match self.position(url) {
            Some(i) => Some(self.entries[i].1.clone()),
            None => None,
        }
    }
}

impl Default for ResponseTable {
    fn default() -> (r: Self)
        ensures
            r@ == Map::<Seq<char>, Seq<u8>>::empty(),
    {
        Self::new()
    }
}

// ---------------------------------------------------------------------------
// The transport
// ---------------------------------------------------------------------------

/// The methods that the transport answers.
#[derive(Clone, Copy, Debug, PartialEq, Eq)]
pub enum MockMethod {
    /// GET.
    Get,
    /// POST.
    Post,
}

/// The method that a request names, in whatever case; none where it is not answered.
pub open spec fn mock_method(method: Seq<char>) -> Option<MockMethod> {
    if crate::text::ascii_upper(method) == "GET"@ {
        Some(MockMethod::Get)
    } else if crate::text::ascii_upper(method) == "POST"@ {
        Some(MockMethod::Post)
    } else {
        None
    }
}

/// The error for a method that is not answered.
pub open spec fn unsupported(method: Seq<char>) -> ErrorView {
    ErrorView::ProtocolViolation("mock method unsupported: "@ + crate::text::ascii_upper(method))
}

/// The method that a request names, or the error for one that is not answered.
pub fn route_method(method: &str) -> (r: Result<MockMethod, TransportError>)
    ensures
        match r {
            Ok(m) => mock_method(method@) == Some(m),
            Err(e) => mock_method(method@) is None && e@ == unsupported(method@),
        },
{
    let upper: String = to_upper(method);
    let chars: Vec<char> = to_chars(upper.as_str());
    if same_text(&chars, "GET") {
        Ok(MockMethod::Get)
    } else if same_text(&chars, "POST") {
        Ok(MockMethod::Post)
    } else {
        let mut text: String = "mock method unsupported: ".to_owned();
        text.append(upper.as_str());
        Err(TransportError::ProtocolViolation(text))
    }
}

/// What a request is answered, given the response that was found for it.
pub open spec fn found_reply(
    found: Option<Seq<u8>>,
    method: Seq<char>,
    url: Seq<char>,
) -> Result<ResponseView, ErrorView> {
    match found {
        Some(body) => Ok(ResponseView { status: 200, body }),
        None => Err(
            ErrorView::ProtocolViolation(
                "mock response missing for "@ + method + " "@ + url,
            ),
        ),
    }
}

/// The answer to a request, given the response that was found for it: status 200 with that
/// body, or the error for a URL that none was set for.
pub fn reply_with(found: Option<Bytes>, method: &str, url: &str) -> (r: Result<
    HttpResponse,
    TransportError,
>)
    ensures
        match r {
            Ok(response) => found_reply(
                crate::payload::optional_contents(found),
                method@,
                url@,
            ) == Ok::<ResponseView, ErrorView>(response@),
            Err(e) => found_reply(crate::payload::optional_contents(found), method@, url@) == Err::<
                ResponseView,
                ErrorView,
            >(e@),
        },
{
    match found {
        Some(body) => Ok(HttpResponse { status: 200, body }),
        None => {
            let mut text: String = "mock response missing for ".to_owned();
            text.append(method);
            text.append(" ");
            text.append(url);
            Err(TransportError::ProtocolViolation(text))
        },
    }
}

/// An HTTP transport that answers from two tables, one for GET and one for POST. Headers and
/// bodies of requests are ignored.
#[derive(Debug)]
pub struct MockHttpTransport {
    gets: ResponseTable,
    posts: ResponseTable,
}

/// The responses that a transport holds.
pub struct MockView {
    pub gets: Map<Seq<char>, Seq<u8>>,
    pub posts: Map<Seq<char>, Seq<u8>>,
}

impl View for MockHttpTransport {
    type V = MockView;

    closed spec fn view(&self) -> MockView {
        MockView { gets: self.gets@, posts: self.posts@ }
    }
}

/// The response that a table holds for a URL.
pub open spec fn lookup(table: Map<Seq<char>, Seq<u8>>, url: Seq<char>) -> Option<Seq<u8>> {
    if table.contains_key(url) {
        Some(table[url])
    } else {
        None
    }
}

/// What a request is answered.
pub open spec fn mock_reply(v: MockView, r: RequestView) -> Result<ResponseView, ErrorView> {
    match mock_method(r.method) {
        Some(MockMethod::Get) => found_reply(lookup(v.gets, r.url), r.method, r.url),
        Some(MockMethod::Post) => found_reply(lookup(v.posts, r.url), r.method, r.url),
        None => Err(unsupported(r.method)),
    }
}

impl MockHttpTransport {
    /// A transport without responses.
    pub fn new() -> (r: Self)
        ensures
            r@ == (MockView { gets: Map::empty(), posts: Map::empty() }),
    {
        MockHttpTransport { gets: ResponseTable::new(), posts: ResponseTable::new() }
    }

    /// Sets the response to a GET of a URL.
    pub fn set_get(&mut self, url: &str, response: Bytes)
        ensures
            final(self)@ == (MockView {
                gets: old(self)@.gets.insert(url@, crate::payload::contents(response)),
                ..old(self)@
            }),
    {
        self.gets.insert(url, response);
    }

    /// Sets the response to a POST to a URL.
    pub fn set_post(&mut self, url: &str, response: Bytes)
        ensures
            final(self)@ == (MockView {
                posts: old(self)@.posts.insert(url@, crate::payload::contents(response)),
                ..old(self)@
            }),
    {
        self.posts.insert(url, response);
    }

    /// Answers a request.
    pub fn execute(&self, request: HttpRequest) -> (r: Result<HttpResponse, TransportError>)
        ensures
            match r {
                Ok(response) => mock_reply(self@, request@) == Ok::<ResponseView, ErrorView>(
                    response@,
                ),
                Err(e) => mock_reply(self@, request@) == Err::<ResponseView, ErrorView>(e@),
            },
    {
        let found: Option<Bytes> = match route_method(request.method.as_str()) {
            Ok(MockMethod::Get) => self.gets.get(request.url.as_str()),
            Ok(MockMethod::Post) => self.posts.get(request.url.as_str()),
            Err(error) => return Err(error),
        };
        reply_with(found, request.method.as_str(), request.url.as_str())
    }
}

impl Default for MockHttpTransport {
    fn default() -> (r: Self)
        ensures
            r@ == (MockView { gets: Map::empty(), posts: Map::empty() }),
    {
        Self::new()
    }
}

// ---------------------------------------------------------------------------
// Laws
// ---------------------------------------------------------------------------

/// What [`MockHttpTransport::set_get`] and [`MockHttpTransport::set_post`] make of a
/// transport.
pub open spec fn with_response(
    v: MockView,
    method: MockMethod,
    url: Seq<char>,
    body: Seq<u8>,
) -> MockView {
    match method {
        MockMethod::Get => MockView { gets: v.gets.insert(url, body), ..v },
        MockMethod::Post => MockView { posts: v.posts.insert(url, body), ..v },
    }
}

/// A response that was set is what a request of that method for that URL is answered,
/// whatever was set before, and whatever headers and body the request has.
pub proof fn law_set_response_is_returned(
    v: MockView,
    method: MockMethod,
    body: Seq<u8>,
    r: RequestView,
)
    requires
        mock_method(r.method) == Some(method),
    ensures
        mock_reply(with_response(v, method, r.url, body), r) == Ok::<ResponseView, ErrorView>(
            ResponseView { status: 200, body },
        ),
{
}

/// Setting a response changes no answer but those to its own method and URL: the two tables
/// are apart, and so are URLs.
pub proof fn law_other_responses_stay(
    v: MockView,
    method: MockMethod,
    url: Seq<char>,
    body: Seq<u8>,
    r: RequestView,
)
    requires
        mock_method(r.method) != Some(method) || r.url != url,
    ensures
        mock_reply(with_response(v, method, url, body), r) == mock_reply(v, r),
{
}

/// The last response that was set for a method and URL is the one that counts.
pub proof fn law_last_response_wins(
    v: MockView,
    method: MockMethod,
    url: Seq<char>,
    first: Seq<u8>,
    second: Seq<u8>,
)
    ensures
        with_response(with_response(v, method, url, first), method, url, second) == with_response(
            v,
            method,
            url,
            second,
        ),
{
    assert(v.gets.insert(url, first).insert(url, second) =~= v.gets.insert(url, second));
    assert(v.posts.insert(url, first).insert(url, second) =~= v.posts.insert(url, second));
}

/// The case of a method does not matter to which response it finds, and headers and bodies do
/// not matter at all.
pub proof fn law_method_case_headers_and_body_are_ignored(v: MockView, a: RequestView, b: RequestView)
    requires
        crate::text::ascii_upper(a.method) == crate::text::ascii_upper(b.method),
        a.url == b.url,
    ensures
        mock_reply(v, a) is Ok <==> mock_reply(v, b) is Ok,
        mock_reply(v, a) matches Ok(response) ==> mock_reply(v, b) == Ok::<
            ResponseView,
            ErrorView,
        >(response),
{
}

/// A URL that no response was set for is refused, and never answered with an empty success.
pub proof fn law_missing_response_is_refused(v: MockView, r: RequestView)
    requires
        !v.gets.contains_key(r.url),
        !v.posts.contains_key(r.url),
    ensures
        mock_reply(v, r) matches Err(e) && e is ProtocolViolation,
{
}

/// A method is answered exactly where, in upper case, it is GET or POST.
pub proof fn law_which_methods_are_answered(method: Seq<char>)
    ensures
        mock_method(method) == Some(MockMethod::Get) <==> crate::text::ascii_upper(method)
            == "GET"@,
        mock_method(method) == Some(MockMethod::Post) <==> crate::text::ascii_upper(method)
            == "POST"@,
{
    reveal_strlit("GET");
    reveal_strlit("POST");
    assert("GET"@.len() != "POST"@.len());
}

/// A request of an answered method gets status 200 and just the bytes that its own table holds
/// for its URL, where it holds any. Otherwise it is refused, with a message that names the
/// method and the URL; so is a request of any other method, whose message names the method.
pub proof fn law_what_a_request_is_answered(v: MockView, r: RequestView)
    ensures
        ({
            let upper = crate::text::ascii_upper(r.method);
            let table = if upper == "GET"@ {
                v.gets
            } else {
                v.posts
            };
            if upper == "GET"@ || upper == "POST"@ {
                if table.contains_key(r.url) {
                    mock_reply(v, r) matches Ok(p) && p.status == 200 && p.body == table[r.url]
                } else {
                    mock_reply(v, r) == Err::<ResponseView, ErrorView>(
                        ErrorView::ProtocolViolation(
                            "mock response missing for "@ + r.method + " "@ + r.url,
                        ),
                    )
                }
            } else {
                mock_reply(v, r) == Err::<ResponseView, ErrorView>(
                    ErrorView::ProtocolViolation("mock method unsupported: "@ + upper),
                )
            }
        }),
{
    reveal_strlit("GET");
    reveal_strlit("POST");
    assert("GET"@.len() != "POST"@.len());
}

/// What was found is answered with status 200, byte for byte, and nothing with a message that
/// names the method and the URL as they came.
pub proof fn law_what_was_found_is_answered(
    body: Seq<u8>,
    method: Seq<char>,
    url: Seq<char>,
)
    ensures
        found_reply(Some(body), method, url) == Ok::<ResponseView, ErrorView>(
            ResponseView { status: 200, body },
        ),
        found_reply(None, method, url) == Err::<ResponseView, ErrorView>(
            ErrorView::ProtocolViolation("mock response missing for "@ + method + " "@ + url),
        ),
        unsupported(method) == ErrorView::ProtocolViolation(
            "mock method unsupported: "@ + crate::text::ascii_upper(method),
        ),
{
}

} // verus!
