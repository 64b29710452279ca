//! Errors that the HTTP endpoints answer with.
use vstd::prelude::*;

verus! {

/// The kinds of failure that an endpoint reports to its client.
#[derive(Debug, Clone, Copy, PartialEq, Eq, Structural)]
pub enum ApiError {
    /// The request could not be understood.
    BadRequest,
    /// The request was understood but the server failed to carry it out.
    InternalServerError,
}

impl ApiError {
    /// The HTTP status code that reports this failure.
    pub open spec fn spec_status_code(self) -> u16 {
        match self {
            ApiError::BadRequest => 400,
            ApiError::InternalServerError => 500,
        }
    }

    /// The HTTP status code that reports this failure: 400 for a bad request,
    /// 500 for an internal server error.
    pub fn status_code(&self) -> (code: u16)
        ensures
            code == self.spec_status_code(),
    {
        match self {
            ApiError::BadRequest => 400,
            ApiError::InternalServerError => 500,
        }
    }

    /// The text that describes this failure.
    pub open spec fn spec_message(self) -> Seq<char> {
        match self {
            ApiError::BadRequest => "Bad Request"@,
            ApiError::InternalServerError => "Internal Server Error"@,
        }
    }

    /// The text that describes this failure.
    pub fn message(&self) -> (m: &'static str)
        ensures
            m@ == self.spec_message(),
    {
        match self {
            ApiError::BadRequest => "Bad Request",
            ApiError::InternalServerError => "Internal Server Error",
        }
    }
}

/// A failed request as it is answered: the failure reported to the client,
/// and the details behind it, newest first, which are logged but not sent.
#[derive(Debug, Clone)]
pub struct ApiErrorResponse {
    pub error: ApiError,
    pub details: Vec<String>,
}

/// The prefix of the detail that records why a JSON body was refused.
pub open spec fn json_rejection_prefix() -> Seq<char> {
    "Failed to parse JSON body: "@
}

impl ApiErrorResponse {
    /// A response that reports `error`, with no details.
    pub fn new(error: ApiError) -> (r: ApiErrorResponse)
        ensures
            r.error == error,
            r.details@.len() == 0,
    {
        ApiErrorResponse { error, details: Vec::new() }
    }

    /// A response that reports `error` as the outcome of a lower-level failure
    /// described by `cause`.
    pub fn caused_by(error: ApiError, cause: &str) -> (r: ApiErrorResponse)
        ensures
            r.error == error,
            r.details@.len() == 1,
            r.details@[0]@ == cause@,
    {
        let mut details = Vec::new();
        details.push(String::from_str(cause));
        ApiErrorResponse { error, details }
    }

    /// The response to a request whose JSON body could not be parsed:
    /// a bad request, with the parser's complaint `rejection` as its detail.
    pub fn from_json_rejection(rejection: &str) -> (r: ApiErrorResponse)
        ensures
            r.error == ApiError::BadRequest,
            r.details@.len() == 1,
            r.details@[0]@ == json_rejection_prefix() + rejection@,
    {
        let mut detail = String::from_str("Failed to parse JSON body: ");
        detail.append(rejection);
        let mut details = Vec::new();
        details.push(detail);
        ApiErrorResponse { error: ApiError::BadRequest, details }
    }

    /// The HTTP answer: the status code of the reported failure and, as the
    /// body, its text; the details stay out of the answer.
    pub fn into_response(self) -> (r: (u16, String))
        ensures
            r.0 == self.error.spec_status_code(),
            r.1@ == self.error.spec_message(),
    {
        (self.error.status_code(), String::from_str(self.error.message()))
    }
}

} // verus!
