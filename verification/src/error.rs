//! The error type returned by every fallible operation of the client.

use vstd::prelude::*;

verus! {

/// Every failure the client reports, as a tagged value.
///
/// A non-success HTTP status becomes [`ApiError::Status`] carrying the exact
/// status code and the response body as diagnostic text. A response body that
/// is not valid JSON becomes [`ApiError::Parse`] carrying the decoder's
/// message; it is a distinct kind from a status error, and its synthetic
/// status code is 400. A failure of the underlying transport (DNS,
/// connection, TLS, timeout) becomes [`ApiError::Transport`], and a failure
/// to configure a transport handle (for instance a request target the
/// transport refuses) becomes [`ApiError::Config`].
#[derive(Debug, Clone)]
pub enum ApiError {
    /// The server answered with a status other than 200.
    Status { code: u32, text: String },
    /// The response body could not be decoded as JSON.
    Parse { message: String },
    /// The underlying transport failed before a response was observed.
    Transport { message: String },
    /// A transport handle could not be configured for the request target.
    Config { message: String },
}

impl ApiError {
    /// The status code an error stands for: the server's own code for a
    /// status error, the synthetic code 400 for a parse error, and 0 for
    /// failures that happened before any status was observed.
    pub open spec fn spec_code(&self) -> u32 {
        match *self {
            ApiError::Status { code, .. } => code,
            ApiError::Parse { .. } => 400u32,
            ApiError::Transport { .. } => 0u32,
            ApiError::Config { .. } => 0u32,
        }
    }

    /// The status code this error carries.
    pub fn code(&self) -> (c: u32)
        ensures
            c == self.spec_code(),
    {
        match self {
            ApiError::Status { code, .. } => *code,
            ApiError::Parse { .. } => 400,
            ApiError::Transport { .. } => 0,
            ApiError::Config { .. } => 0,
        }
    }

    /// The diagnostic text this error carries: the response body of a status
    /// error, or the message of the other kinds.
    pub fn text(&self) -> (t: &str)
        ensures
            t@ == self.spec_text(),
    {
        match self {
            ApiError::Status { text, .. } => text.as_str(),
            ApiError::Parse { message } => message.as_str(),
            ApiError::Transport { message } => message.as_str(),
            ApiError::Config { message } => message.as_str(),
        }
    }

    /// The diagnostic text an error carries.
    pub open spec fn spec_text(&self) -> Seq<char> {
        match *self {
            ApiError::Status { text, .. } => text@,
            ApiError::Parse { message } => message@,
            ApiError::Transport { message } => message@,
            ApiError::Config { message } => message@,
        }
    }
}

} // verus!
