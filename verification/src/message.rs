//! Requests and responses as plain values.
//!
//! A request is what has been resolved from a request stream; a response is
//! the head that is written back before the body. Neither changes after it
//! has been built.

use vstd::prelude::*;
use vstd::string::StringExecFns;

verus! {

/// Status of every response the server writes, also for a path without a route.
pub const STATUS_OK: u16 = 200;

/// Method of every request the client sends.
pub const METHOD_GET: &'static str = "GET";

/// Scheme of every request target the client sends.
pub const SCHEME_PREFIX: &'static str = "https://";

/// Name of the header that marks the body as plain text.
pub const CONTENT_TYPE: &'static str = "content-type";

/// Value of the header that marks the body as plain text.
pub const TEXT_PLAIN: &'static str = "text/plain";

/// The protocol version a request was made with.
#[derive(Clone, Copy, Debug, PartialEq, Eq, Structural)]
pub enum Version {
    Http09,
    Http10,
    Http11,
    Http2,
    Http3,
}

/// One header line.
pub struct Header {
    pub name: String,
    pub value: String,
}

/// A header as name and value text.
pub struct HeaderView {
    pub name: Seq<char>,
    pub value: Seq<char>,
}

impl View for Header {
    type V = HeaderView;

    open spec fn view(&self) -> HeaderView {
        HeaderView { name: self.name@, value: self.value@ }
    }
}

/// The headers of a list, each as name and value text, in order.
pub open spec fn headers_view(headers: Seq<Header>) -> Seq<HeaderView> {
    Seq::new(headers.len(), |i: int| headers[i]@)
}

/// A request resolved from a request stream.
pub struct Request {
    pub method: String,
    pub path: String,
    pub version: Version,
    pub headers: Vec<Header>,
}

/// A request as text and plain values.
pub struct RequestView {
    pub method: Seq<char>,
    pub path: Seq<char>,
    pub version: Version,
    pub headers: Seq<HeaderView>,
}

impl View for Request {
    type V = RequestView;

    open spec fn view(&self) -> RequestView {
        RequestView {
            method: self.method@,
            path: self.path@,
            version: self.version,
            headers: headers_view(self.headers@),
        }
    }
}

/// The head of a response: status and headers.
pub struct Response {
    pub status: u16,
    pub headers: Vec<Header>,
}

/// A response head as plain values.
pub struct ResponseView {
    pub status: u16,
    pub headers: Seq<HeaderView>,
}

impl View for Response {
    type V = ResponseView;

    open spec fn view(&self) -> ResponseView {
        ResponseView { status: self.status, headers: headers_view(self.headers@) }
    }
}

/// The request the client sends for `path`: a GET without headers or body.
pub open spec fn get_request(path: Seq<char>) -> RequestView {
    RequestView {
        method: METHOD_GET@,
        path: path,
        version: Version::Http3,
        headers: Seq::<HeaderView>::empty(),
    }
}

/// The head of every response the server writes: status 200 and one header
/// that marks the body as plain text.
pub open spec fn ok_text_response() -> ResponseView {
    ResponseView {
        status: STATUS_OK,
        headers: seq![HeaderView { name: CONTENT_TYPE@, value: TEXT_PLAIN@ }],
    }
}

/// The target of a request for `path` at `authority`.
pub open spec fn https_target(authority: Seq<char>, path: Seq<char>) -> Seq<char> {
    SCHEME_PREFIX@ + authority + path
}

impl Header {
    /// A header with the given name and value.
    pub fn new(name: &str, value: &str) -> (header: Header)
        ensures
            header@ == (HeaderView { name: name@, value: value@ }),
    {
        Header { name: name.to_owned(), value: value.to_owned() }
    }
}

impl Request {
    /// A GET request for `path`, without headers.
    pub fn get(path: &str) -> (request: Request)
        ensures
            request@ == get_request(path@),
    {
        let request = Request {
            method: METHOD_GET.to_owned(),
            path: path.to_owned(),
            version: Version::Http3,
            headers: Vec::new(),
        };
        assert(headers_view(request.headers@) =~= Seq::<HeaderView>::empty());
        request
    }

    /// The target to send this request to at `authority`: the scheme, the
    /// authority and the path, one after the other.
    pub fn target(&self, authority: &str) -> (target: String)
        ensures
            target@ == https_target(authority@, self.path@),
    {
        let mut target = SCHEME_PREFIX.to_owned();
        target.append(authority);
        target.append(self.path.as_str());
        target
    }
}

impl Response {
    /// The head of every response the server writes.
    pub fn ok_text() -> (response: Response)
        ensures
            response@ == ok_text_response(),
    {
        let mut headers: Vec<Header> = Vec::new();
        headers.push(Header::new(CONTENT_TYPE, TEXT_PLAIN));
        let response = Response { status: STATUS_OK, headers };
        assert(headers_view(response.headers@) =~= ok_text_response().headers);
        response
    }
}

} // verus!
