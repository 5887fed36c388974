//! What can go wrong with a fetch.

use vstd::prelude::*;

verus! {

/// An error from the API or from the HTTP exchange.
#[derive(Debug, Clone, Copy, PartialEq, Eq, Structural, Hash)]
pub enum Error {
    /// The rate-limit was hit.
    RateLimitError,
    /// The exchange failed with this status.
    HttpError(u16),
    /// Failed to parse the response.
    ResponseParseError,
    /// Failed to parse the rate-limit headers.
    RateLimitParseError,
}

impl Error {
    /// What the error means, in words.
    pub fn message(&self) -> (r: &'static str)
        ensures
            r@ == match *self {
                Error::RateLimitError => "exceeded rate limit or month limit"@,
                Error::HttpError(_) => "HTTP error"@,
                Error::ResponseParseError => "failed to parse the response"@,
                Error::RateLimitParseError =>
                    "failed to parse the rate-limits headers from the response"@,
            },
    {
        match self {
            Error::RateLimitError => "exceeded rate limit or month limit",
            Error::HttpError(_) => "HTTP error",
            Error::ResponseParseError => "failed to parse the response",
            Error::RateLimitParseError => "failed to parse the rate-limits headers from the response",
        }
    }
}

} // verus!
