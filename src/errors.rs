use vstd::prelude::*;

verus! {

/// What went wrong, as a plain value that can be logged, cloned and compared.
#[derive(Clone, Debug, PartialEq, Eq)]
pub enum ErrorKind {
    /// A request could not be prepared from the given input (bad URL, bad MIME type).
    FailedToPrepareHttpRequest(String),
    /// The request could not be sent: a transport-level failure.
    HttpRequestFailed,
    /// The server answered with this status, but reading or decoding the named
    /// part of the response failed.
    FailedToProcessHttpResponse(u16, String),
    /// The server refused the access token (HTTP 401); refresh it and try again.
    ApiCallFailedInvalidToken(u16),
    /// The server asked the client to slow down (HTTP 429).
    ApiCallFailedTooManyRequests(u16),
    /// Any other unexpected status, with the response body as text.
    ApiCallFailed(u16, String),
    /// The server reported success, but could not delete these documents.
    FailedDocuments(Vec<String>),
    /// A local file could not be read, or its name or size could not be determined.
    FileSystemFailure,
    /// The `Content-Length` header is missing or is not a decimal byte count.
    FailedToGetContentLength,
    /// No file name could be found in the `Content-Disposition` header.
    FailedToGetFilename,
    /// The number of bytes received (second) differs from the declared length (first).
    ContentLengthMismatch(u64, u64),
    /// A value could not be encoded as JSON; names the value.
    SerializeJsonFailed(String),
}

/// The error type of every fallible operation of this library.
#[derive(Clone, Debug)]
pub struct Error {
    /// The kind of failure.
    pub kind: ErrorKind,
    /// The message of the lower-level failure that caused this one, where there was one.
    pub cause: Option<String>,
}

impl Error {
    /// An error of the given kind, caused by the lower-level failure described by `cause`.
    pub fn with_cause(kind: ErrorKind, cause: String) -> (r: Error)
        ensures
            r.kind == kind,
            r.cause == Some(cause),
    {
        Error { kind, cause: Some(cause) }
    }

    /// The kind of the error.
    pub fn kind(&self) -> (r: &ErrorKind)
        ensures
            *r == self.kind,
    {
        &self.kind
    }
}

impl From<ErrorKind> for Error {
    fn from(kind: ErrorKind) -> (r: Error) {
        Error { kind, cause: None }
    }
}

impl vstd::std_specs::convert::FromSpecImpl<ErrorKind> for Error {
    open spec fn obeys_from_spec() -> bool {
        true
    }

    open spec fn from_spec(kind: ErrorKind) -> Error {
        Error { kind, cause: None }
    }
}

} // verus!
