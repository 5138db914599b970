//! The failures of a request, and the response each becomes.

use vstd::prelude::*;

verus! {

/// A failure of one request.
pub enum ErrorResponse {
    /// Talking to the hosting API failed; the message, if any, is generic.
    ServerError(Option<String>),
    /// The package is not in the registry.
    PageNotFound,
}

/// The status and message of the response that an error becomes.
pub open spec fn response_of(e: ErrorResponse) -> (u16, Seq<char>) {
    match e {
        ErrorResponse::ServerError(Some(m)) => (500, m@),
        ErrorResponse::ServerError(None) => (500, "Internal server error"@),
        ErrorResponse::PageNotFound => (404, "Page not found"@),
    }
}

impl ErrorResponse {
    /// The error that any failure of the hosting API becomes.
    pub open spec fn is_upstream_failure(&self) -> bool {
        self matches ErrorResponse::ServerError(Some(m)) && m@ == "Error during http request"@
    }

    /// The error for any failure of the hosting API, whatever its cause:
    /// the cause is not shown to the client.
    pub fn upstream_failure() -> (r: ErrorResponse)
        ensures
            r.is_upstream_failure(),
            response_of(r).0 == 500,
    {
        ErrorResponse::ServerError(Some(String::from_str("Error during http request")))
    }

    /// The status code and body of the response that this error becomes.
    pub fn into_response(self) -> (r: (u16, String))
        ensures
            (r.0, r.1@) == response_of(self),
    {
        match self {
            ErrorResponse::ServerError(message) => {
                let message = match message {
                    Some(m) => m,
                    None => String::from_str("Internal server error"),
                };
                (500, message)
            },
            ErrorResponse::PageNotFound => (404, String::from_str("Page not found")),
        }
    }
}

} // verus!
