//! The transport primitive as plain values: what a request is, what a response is,
//! and the one place where a response status becomes a typed error.
use vstd::prelude::*;

use crate::errors::{Error, ErrorKind};

verus! {

/// HTTP 200.
pub const STATUS_OK: u16 = 200;
/// HTTP 201.
pub const STATUS_CREATED: u16 = 201;
/// HTTP 204.
pub const STATUS_NO_CONTENT: u16 = 204;
/// HTTP 401.
pub const STATUS_UNAUTHORIZED: u16 = 401;
/// HTTP 429.
pub const STATUS_TOO_MANY_REQUESTS: u16 = 429;

/// The HTTP method of a request.
#[derive(Clone, Copy, Debug, PartialEq, Eq, Structural)]
pub enum Method {
    Get,
    Post,
}

/// How a request authenticates itself.
#[derive(Clone, Debug)]
pub enum Authorization {
    /// No credentials.
    Anonymous,
    /// HTTP Basic authentication with a user name and a password.
    Basic { user: String, password: String },
    /// A bearer token.
    Bearer(String),
}

/// The body of a request.
#[derive(Clone, Debug)]
pub enum RequestBody {
    /// No body.
    Empty,
    /// Name/value pairs, sent form-encoded (or, on a GET, as the query string).
    Form(Vec<(String, String)>),
    /// Bytes sent as they are, with the `Content-Type` header among the request's headers.
    Bytes(Vec<u8>),
}

/// A fully prepared HTTP request: the transport only sends it.
#[derive(Clone, Debug)]
pub struct HttpRequest {
    pub method: Method,
    pub url: String,
    pub authorization: Authorization,
    /// Extra headers, by name and value.
    pub headers: Vec<(String, String)>,
    pub body: RequestBody,
}

/// Name/value pairs as text.
pub open spec fn pairs_view(ps: Seq<(String, String)>) -> Seq<(Seq<char>, Seq<char>)> {
    ps.map_values(|p: (String, String)| (p.0@, p.1@))
}

/// `body` is a form with exactly the pairs `expected`.
pub open spec fn is_form(body: RequestBody, expected: Seq<(Seq<char>, Seq<char>)>) -> bool {
    body matches RequestBody::Form(ps) && pairs_view(ps@) == expected
}

/// The name/value pair of `name` and `value`.
pub fn pair(name: &str, value: &str) -> (r: (String, String))
    ensures
        r.0@ == name@,
        r.1@ == value@,
{
    (name.to_owned(), value.to_owned())
}

/// The concatenation of three pieces of text.
pub fn concat3(a: &str, b: &str, c: &str) -> (r: String)
    ensures
        r@ == a@ + b@ + c@,
{
    let mut s = a.to_owned();
    s.append(b);
    s.append(c);
    s
}

/// The body of a response as the transport could read it.
#[derive(Clone, Debug)]
pub enum ResponseBody {
    /// The body, decoded as text.
    Text(String),
    /// The body could not be read; the message of that failure.
    Unreadable(String),
}

/// A received response: its status and its body.
#[derive(Clone, Debug)]
pub struct Response {
    pub status: u16,
    pub body: ResponseBody,
}

/// What a status alone says about a response.
#[derive(Clone, Copy, Debug, PartialEq, Eq, Structural)]
pub enum StatusVerdict {
    /// The status is the expected one: the response is the caller's to read.
    Expected,
    /// HTTP 401.
    InvalidToken,
    /// HTTP 429.
    TooManyRequests,
    /// Any other status: the body is needed to describe the failure.
    Unexpected,
}

/// The verdict on `status` when `expected` is the status of success.
pub open spec fn verdict_of(status: u16, expected: u16) -> StatusVerdict {
    if status == expected {
        StatusVerdict::Expected
    } else if status == STATUS_UNAUTHORIZED {
        StatusVerdict::InvalidToken
    } else if status == STATUS_TOO_MANY_REQUESTS {
        StatusVerdict::TooManyRequests
    } else {
        StatusVerdict::Unexpected
    }
}

/// `e` is the failure that an unexpected `status` with the given body stands for:
/// the body's text, or, where the body could not be read, that read failure.
pub open spec fn is_failure_of(e: Error, status: u16, body: ResponseBody) -> bool {
    match body {
        ResponseBody::Text(t) => e.kind == ErrorKind::ApiCallFailed(status, t) && e.cause is None,
        ResponseBody::Unreadable(m) => {
            &&& e.kind matches ErrorKind::FailedToProcessHttpResponse(s, what)
            &&& s == status
            &&& what@ == "reading body"@
            &&& e.cause == Some(m)
        },
    }
}

/// `e` says that the part `what` of a response with `status` could not be read or
/// decoded.
pub open spec fn is_read_failure(e: Error, status: u16, what: Seq<char>) -> bool {
    &&& e.kind matches ErrorKind::FailedToProcessHttpResponse(s, w)
    &&& s == status
    &&& w@ == what
    &&& e.cause is None
}

/// `e` is a plain error of kind `k`.
pub open spec fn is_plain(e: Error, k: ErrorKind) -> bool {
    e.kind == k && e.cause is None
}

/// `r` is the outcome of classifying `response` when `expected` is the status of
/// success: the response itself, or the typed failure its status stands for.
pub open spec fn is_classified(r: Result<Response, Error>, response: Response, expected: u16) -> bool {
    let status = response.status;
    match verdict_of(status, expected) {
        StatusVerdict::Expected => r == Ok::<Response, Error>(response),
        StatusVerdict::InvalidToken => r matches Err(e) && is_plain(e, ErrorKind::ApiCallFailedInvalidToken(status)),
        StatusVerdict::TooManyRequests => r matches Err(e) && is_plain(e, ErrorKind::ApiCallFailedTooManyRequests(status)),
        StatusVerdict::Unexpected => r matches Err(e) && is_failure_of(e, status, response.body),
    }
}

/// `r` is the outcome of a response whose success status is `expected` and whose
/// body decodes to `decoded` (`None` where it does not decode): the classifier's
/// failure, or the decoded value itself, or a failure to decode `what`.
pub open spec fn is_decoded_outcome<T>(
    r: Result<T, Error>,
    response: Response,
    expected: u16,
    decoded: Option<T>,
    what: Seq<char>,
) -> bool {
    if response.status != expected {
        r matches Err(e) && is_classified(Err(e), response, expected)
    } else {
        match decoded {
            Some(t) => r == Ok::<T, Error>(t),
            None => r matches Err(e) && is_read_failure(e, response.status, what),
        }
    }
}

/// The value that a response carries: `response` is classified first, then the
/// value decoded from its body is taken as it is; `what` names that value.
pub fn decoded_from_response<T>(response: Response, expected: u16, decoded: Option<T>, what: &str) -> (r: Result<T, Error>)
    ensures
        is_decoded_outcome(r, response, expected, decoded, what@),
{
    let status = response.status;
    match general_err_handler(response, expected) {
        Err(e) => Err(e),
        Ok(_) => match decoded {
            Some(t) => Ok(t),
            None => Err(Error::from(ErrorKind::FailedToProcessHttpResponse(status, what.to_owned()))),
        },
    }
}

/// What `status` says of a response whose expected status is `expected`.
pub fn check_status(status: u16, expected: u16) -> (r: StatusVerdict)
    ensures
        r == verdict_of(status, expected),
{
    if status == expected {
        StatusVerdict::Expected
    } else if status == STATUS_UNAUTHORIZED {
        StatusVerdict::InvalidToken
    } else if status == STATUS_TOO_MANY_REQUESTS {
        StatusVerdict::TooManyRequests
    } else {
        StatusVerdict::Unexpected
    }
}

/// The error for an unexpected `status`, described by the response body; a body
/// that could not be read becomes a response-processing error that keeps the cause.
pub fn handle_error(status: u16, body: ResponseBody) -> (r: Error)
    ensures
        is_failure_of(r, status, body),
{
    match body {
        ResponseBody::Text(t) => Error::from(ErrorKind::ApiCallFailed(status, t)),
        ResponseBody::Unreadable(m) => Error::with_cause(
            ErrorKind::FailedToProcessHttpResponse(status, String::from_str("reading body")),
            m,
        ),
    }
}

/// Passes `response` through when its status is `expected`; otherwise turns it into
/// the typed failure that its status (and, for an unexpected status, its body)
/// stands for.
pub fn general_err_handler(response: Response, expected: u16) -> (r: Result<Response, Error>)
    ensures
        is_classified(r, response, expected),
{
    let status = response.status;
    match check_status(status, expected) {
        StatusVerdict::Expected => Ok(response),
        StatusVerdict::InvalidToken => Err(Error::from(ErrorKind::ApiCallFailedInvalidToken(status))),
        StatusVerdict::TooManyRequests => Err(Error::from(ErrorKind::ApiCallFailedTooManyRequests(status))),
        StatusVerdict::Unexpected => Err(handle_error(status, response.body)),
    }
}

} // verus!
