//! Requests and responses as the dispatch engine sees them.

use crate::headers::{header_entries, no_headers, HeaderEntry};
use hyper::HeaderMap;
use vstd::prelude::*;
use vstd::string::StringExecFns;

verus! {

/// The status of the response that stands for every failure.
pub const INTERNAL_SERVER_ERROR: u16 = 500;

/// The status of a response: a number from 100 to 999.
#[derive(Clone, Copy, Debug, PartialEq, Eq)]
pub struct StatusCode {
    code: u16,
}

impl View for StatusCode {
    type V = u16;

    closed spec fn view(&self) -> u16 {
        self.code
    }
}

/// Whether `code` can be the status of a response.
pub open spec fn is_status(code: u16) -> bool {
    100 <= code <= 999
}

impl StatusCode {
    #[verifier::type_invariant]
    spec fn in_bounds(self) -> bool {
        is_status(self.code)
    }

    /// The status with the number `code`, if it is from 100 to 999.
    pub fn from_u16(code: u16) -> (status: Option<StatusCode>)
        ensures
            match status {
                Some(made) => is_status(code) && made@ == code,
                None => !is_status(code),
            },
    {
        if code < 100 || code >= 1000 {
            None
        } else {
            Some(StatusCode { code })
        }
    }

    /// The number of the status.
    pub fn as_u16(&self) -> (code: u16)
        ensures
            code == self@,
            is_status(code),
    {
        proof {
            use_type_invariant(self);
        }
        self.code
    }

    /// 200, the request was served.
    pub fn ok() -> (status: StatusCode)
        ensures
            status@ == 200,
    {
        StatusCode { code: 200 }
    }

    /// 404, nothing was found.
    pub fn not_found() -> (status: StatusCode)
        ensures
            status@ == 404,
    {
        StatusCode { code: 404 }
    }

    /// 500, the status of the failure response.
    pub fn internal_server_error() -> (status: StatusCode)
        ensures
            status@ == INTERNAL_SERVER_ERROR,
    {
        StatusCode { code: INTERNAL_SERVER_ERROR }
    }
}

/// A request method, known by its name (`GET`, `POST`, ...). Two methods are
/// the same when their names are, letter for letter.
#[derive(Clone, Debug)]
pub struct Method {
    name: String,
}

impl View for Method {
    type V = Seq<char>;

    closed spec fn view(&self) -> Seq<char> {
        self.name@
    }
}

impl Method {
    /// The method with the given name.
    pub fn from_name(name: &str) -> (method: Method)
        ensures
            method@ == name@,
    {
        Method { name: String::from_str(name) }
    }

    pub fn get() -> (method: Method)
        ensures
            method@ == "GET"@,
    {
        Method::from_name("GET")
    }

    pub fn post() -> (method: Method)
        ensures
            method@ == "POST"@,
    {
        Method::from_name("POST")
    }

    pub fn put() -> (method: Method)
        ensures
            method@ == "PUT"@,
    {
        Method::from_name("PUT")
    }

    pub fn delete() -> (method: Method)
        ensures
            method@ == "DELETE"@,
    {
        Method::from_name("DELETE")
    }

    pub fn head() -> (method: Method)
        ensures
            method@ == "HEAD"@,
    {
        Method::from_name("HEAD")
    }

    pub fn options() -> (method: Method)
        ensures
            method@ == "OPTIONS"@,
    {
        Method::from_name("OPTIONS")
    }

    pub fn patch() -> (method: Method)
        ensures
            method@ == "PATCH"@,
    {
        Method::from_name("PATCH")
    }

    pub fn connect() -> (method: Method)
        ensures
            method@ == "CONNECT"@,
    {
        Method::from_name("CONNECT")
    }

    pub fn trace() -> (method: Method)
        ensures
            method@ == "TRACE"@,
    {
        Method::from_name("TRACE")
    }

    /// The method's name.
    pub fn as_str(&self) -> (name: &str)
        ensures
            name@ == self@,
    {
        self.name.as_str()
    }

    /// Whether the two methods are the same.
    pub fn same(&self, other: &Method) -> (same: bool)
        ensures
            same == (self@ == other@),
    {
        self.name == other.name
    }
}

/// What a request is to a handler.
pub struct RequestView {
    pub method: Seq<char>,
    pub path: Seq<char>,
    pub headers: Seq<HeaderEntry>,
    pub body: Seq<u8>,
}

/// An inbound request: its method, the path of its target, its headers and
/// its body.
#[derive(Clone, Debug)]
pub struct Request {
    pub method: Method,
    pub path: String,
    pub headers: HeaderMap,
    pub body: Vec<u8>,
}

impl View for Request {
    type V = RequestView;

    open spec fn view(&self) -> RequestView {
        RequestView {
            method: self.method@,
            path: self.path@,
            headers: header_entries(self.headers),
            body: self.body@,
        }
    }
}

impl Request {
    /// A request for `path` with no header and an empty body.
    pub fn new(method: Method, path: &str) -> (request: Request)
        ensures
            request@ == (RequestView {
                method: method@,
                path: path@,
                headers: Seq::empty(),
                body: Seq::empty(),
            }),
    {
        Request { method, path: String::from_str(path), headers: no_headers(), body: Vec::new() }
    }

    /// A `GET` request for `path` with no header and an empty body.
    pub fn get(path: &str) -> (request: Request)
        ensures
            request@ == (RequestView {
                method: "GET"@,
                path: path@,
                headers: Seq::empty(),
                body: Seq::empty(),
            }),
    {
        Request::new(Method::get(), path)
    }

    /// A `POST` request for `path` with no header and an empty body.
    pub fn post(path: &str) -> (request: Request)
        ensures
            request@ == (RequestView {
                method: "POST"@,
                path: path@,
                headers: Seq::empty(),
                body: Seq::empty(),
            }),
    {
        Request::new(Method::post(), path)
    }

    /// The same request with `headers` in place of its headers.
    pub fn with_headers(self, headers: HeaderMap) -> (request: Request)
        ensures
            request@ == (RequestView { headers: header_entries(headers), ..self@ }),
    {
        Request { method: self.method, path: self.path, headers, body: self.body }
    }

    /// The same request with `body` in place of its body.
    pub fn with_body(self, body: Vec<u8>) -> (request: Request)
        ensures
            request@ == (RequestView { body: body@, ..self@ }),
    {
        Request { method: self.method, path: self.path, headers: self.headers, body }
    }
}

/// What a response is to the transport: the number of its status, headers
/// and a body.
pub struct ResponseView {
    pub status: u16,
    pub headers: Seq<HeaderEntry>,
    pub body: Seq<u8>,
}

/// The one response that stands for every failure: status 500, no header, an
/// empty body.
pub open spec fn failure_response() -> ResponseView {
    ResponseView { status: INTERNAL_SERVER_ERROR, headers: Seq::empty(), body: Seq::empty() }
}

/// The response to send back.
#[derive(Clone, Debug)]
pub struct Response {
    pub status: StatusCode,
    pub headers: HeaderMap,
    pub body: Vec<u8>,
}

impl View for Response {
    type V = ResponseView;

    open spec fn view(&self) -> ResponseView {
        ResponseView {
            status: self.status@,
            headers: header_entries(self.headers),
            body: self.body@,
        }
    }
}

impl Response {
    /// The failure response.
    pub fn failure() -> (response: Response)
        ensures
            response@ == failure_response(),
    {
        Response {
            status: StatusCode::internal_server_error(),
            headers: no_headers(),
            body: Vec::new(),
        }
    }
}

} // verus!
