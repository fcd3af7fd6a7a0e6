//! The errors this library surfaces, and how they are answered.

use vstd::prelude::*;

verus! {

/// An error of the interception layer.
#[derive(Debug)]
pub enum PrerenderError {
    /// The configured service URL does not parse as an absolute URL;
    /// construction of the configuration fails with this immediately.
    InvalidUrl,
    /// The outbound fetch for a diverted request failed: a network error, a
    /// timeout, or an unreadable response body.  The carried text describes
    /// the failure.
    FetchFailed { message: String },
}

impl PrerenderError {
    /// The body text of the error response answered to the caller.
    pub open spec fn spec_message(&self) -> Seq<char> {
        match self {
            PrerenderError::InvalidUrl => "Invalid Url."@,
            PrerenderError::FetchFailed { message } => message@,
        }
    }

    /// The HTTP status of the error response: always `400`, for either
    /// error.
    pub fn status_code(&self) -> (c: u16)
        ensures
            c == 400,
    {
        400
    }

    /// The body text of the error response answered to the caller.
    pub fn message(&self) -> (m: String)
        ensures
            m@ == self.spec_message(),
    {
        match self {
            PrerenderError::InvalidUrl => String::from_str("Invalid Url."),
            PrerenderError::FetchFailed { message } => message.clone(),
        }
    }
}

} // verus!
