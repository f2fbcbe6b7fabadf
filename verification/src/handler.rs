//! Handlers: what a request is expected to look like, and the response that
//! a matching request receives.

use crate::headers::{carries_all, contains_headers, header_entries, no_headers, HeaderEntry};
use crate::message::{
    failure_response, Method, Request, RequestView, Response, ResponseView, StatusCode,
    INTERNAL_SERVER_ERROR,
};
use hyper::HeaderMap;
use vstd::prelude::*;
use vstd::string::StringExecFns;

verus! {

/// What a handler expects of a request, and what it answers.
pub struct HandlerSpecView {
    pub path: Seq<char>,
    pub method: Seq<char>,
    pub required_headers: Seq<HeaderEntry>,
    pub status_code: u16,
    pub response_headers: Seq<HeaderEntry>,
    pub response: Seq<u8>,
}

impl HandlerSpecView {
    /// The request has the expected path and the expected method, and it
    /// carries every required header.
    pub open spec fn accepts(self, request: RequestView) -> bool {
        &&& request.path == self.path
        &&& request.method == self.method
        &&& carries_all(request.headers, self.required_headers)
    }

    /// The response that a matching request receives.
    pub open spec fn configured_response(self) -> ResponseView {
        ResponseView {
            status: self.status_code,
            headers: self.response_headers,
            body: self.response,
        }
    }

    /// The configured response for a request that matches, the failure
    /// response for any other.
    pub open spec fn respond(self, request: RequestView) -> ResponseView {
        if self.accepts(request) {
            self.configured_response()
        } else {
            failure_response()
        }
    }
}

/// What a handler is: an expectation, or the fallback that answers every
/// request with the failure response.
pub enum HandlerView {
    Expect(HandlerSpecView),
    Fallback,
}

impl HandlerView {
    /// Whether the handler answers `request` with its configured response.
    pub open spec fn accepts(self, request: RequestView) -> bool {
        match self {
            HandlerView::Expect(expected) => expected.accepts(request),
            HandlerView::Fallback => false,
        }
    }

    /// The response that the handler gives to `request`.
    pub open spec fn respond(self, request: RequestView) -> ResponseView {
        match self {
            HandlerView::Expect(expected) => expected.respond(request),
            HandlerView::Fallback => failure_response(),
        }
    }
}

/// Describes an expected request step by step, and the response to it.
#[derive(Clone)]
pub struct HandlerBuilder {
    path: String,
    method: Method,
    headers: HeaderMap,
    status_code: StatusCode,
    response_headers: HeaderMap,
    response: Vec<u8>,
}

impl View for HandlerBuilder {
    type V = HandlerSpecView;

    closed spec fn view(&self) -> HandlerSpecView {
        HandlerSpecView {
            path: self.path@,
            method: self.method@,
            required_headers: header_entries(self.headers),
            status_code: self.status_code@,
            response_headers: header_entries(self.response_headers),
            response: self.response@,
        }
    }
}

/// A single-use rule: an expectation built by a `HandlerBuilder`, or the
/// fallback.
#[derive(Clone)]
pub enum Handler {
    Expect(HandlerBuilder),
    Fallback,
}

impl View for Handler {
    type V = HandlerView;

    open spec fn view(&self) -> HandlerView {
        match self {
            Handler::Expect(expected) => HandlerView::Expect(expected@),
            Handler::Fallback => HandlerView::Fallback,
        }
    }
}

impl Default for HandlerBuilder {
    /// Expects a `GET` request for the empty path, with no required header,
    /// and answers it with status 200, no header and an empty body.
    fn default() -> (builder: HandlerBuilder)
        ensures
            builder@ == (HandlerSpecView {
                path: Seq::empty(),
                method: "GET"@,
                required_headers: Seq::empty(),
                status_code: 200,
                response_headers: Seq::empty(),
                response: Seq::empty(),
            }),
    {
        HandlerBuilder {
            path: String::new(),
            method: Method::get(),
            headers: no_headers(),
            status_code: StatusCode::ok(),
            response_headers: no_headers(),
            response: Vec::new(),
        }
    }
}

impl HandlerBuilder {
    /// Expects a `GET` request for `path`, with no required header, and
    /// answers it with status 500, no header and an empty body.
    pub fn new(path: &str) -> (builder: HandlerBuilder)
        ensures
            builder@ == (HandlerSpecView {
                path: path@,
                method: "GET"@,
                required_headers: Seq::empty(),
                status_code: INTERNAL_SERVER_ERROR,
                response_headers: Seq::empty(),
                response: Seq::empty(),
            }),
    {
        HandlerBuilder {
            path: String::from_str(path),
            method: Method::get(),
            headers: no_headers(),
            status_code: StatusCode::internal_server_error(),
            response_headers: no_headers(),
            response: Vec::new(),
        }
    }

    /// Expects `method` in place of the method expected so far.
    pub fn method(self, method: Method) -> (builder: HandlerBuilder)
        ensures
            builder@ == (HandlerSpecView { method: method@, ..self@ }),
    {
        HandlerBuilder { method, ..self }
    }

    /// Answers with `status_code`.
    pub fn status_code(self, status_code: StatusCode) -> (builder: HandlerBuilder)
        ensures
            builder@ == (HandlerSpecView { status_code: status_code@, ..self@ }),
    {
        HandlerBuilder { status_code, ..self }
    }

    /// Requires the request to carry every header of `headers`, in place of
    /// the headers required so far.
    pub fn headers(self, headers: HeaderMap) -> (builder: HandlerBuilder)
        ensures
            builder@ == (HandlerSpecView { required_headers: header_entries(headers), ..self@ }),
    {
        HandlerBuilder { headers, ..self }
    }

    /// Answers with the headers `headers`.
    pub fn response_headers(self, headers: HeaderMap) -> (builder: HandlerBuilder)
        ensures
            builder@ == (HandlerSpecView { response_headers: header_entries(headers), ..self@ }),
    {
        HandlerBuilder { response_headers: headers, ..self }
    }

    /// Answers with the body `response`.
    pub fn response(self, response: Vec<u8>) -> (builder: HandlerBuilder)
        ensures
            builder@ == (HandlerSpecView { response: response@, ..self@ }),
    {
        HandlerBuilder { response, ..self }
    }

    /// The handler that expects what was described.
    pub fn build(self) -> (handler: Handler)
        ensures
            handler@ == HandlerView::Expect(self@),
    {
        Handler::Expect(self)
    }

    /// Whether `request` is what this builder describes.
    pub fn matches(&self, request: &Request) -> (accepted: bool)
        ensures
            accepted == self@.accepts(request@),
    {
        self.path == request.path && self.method.same(&request.method) && contains_headers(
            &request.headers,
            &self.headers,
        )
    }
}

impl Handler {
    /// Answers `request` and uses the handler up: the configured response
    /// if the request matches, the failure response if it does not.
    pub fn evaluate(self, request: &Request) -> (response: Response)
        ensures
            response@ == self@.respond(request@),
    {
        match self {
            Handler::Expect(expected) => {
                if expected.matches(request) {
                    Response {
                        status: expected.status_code,
                        headers: expected.response_headers,
                        body: expected.response,
                    }
                } else {
                    Response::failure()
                }
            },
            Handler::Fallback => Response::failure(),
        }
    }
}

/// The answer to a request that no handler was registered for: the failure
/// response, whatever the request.
pub fn default_handle(request: &Request) -> (response: Response)
    ensures
        response@ == failure_response(),
        response@ == HandlerView::Fallback.respond(request@),
{
    Handler::Fallback.evaluate(request)
}

} // verus!
