//! The error taxonomy of the client core.
//!
//! Every failure a caller can see is one of five kinds: a configuration
//! error at construction or request building, a transport failure before any
//! response arrived, a success-range body that did not match the expected
//! shape, a structured client error reported by the backend itself, or a
//! response status outside both the success and the client-error ranges.

use vstd::prelude::*;
use vstd::string::*;

verus! {

/// Detail of a single client error.
#[derive(Debug, Clone)]
pub struct GithubClientErrorDetail {
    pub resource: String,
    pub field: String,
    pub code: String,
}

/// Returned from the API when one or more client errors have been made.
#[derive(Debug, Clone)]
pub struct GithubClientErrorBody {
    pub message: String,
    pub errors: Option<Vec<GithubClientErrorDetail>>,
    pub documentation_url: Option<String>,
}

/// A failure of a client operation.
#[derive(Debug)]
pub enum Error {
    /// Malformed token or base URL: construction or request building failed.
    Config { description: String },
    /// Network failure before any response was received.
    Transport { description: String },
    /// A success-range response body did not match the expected shape.
    Deserialization { description: String },
    /// A client-error response with the backend's own structured body.
    Github { error: GithubClientErrorBody, status: u16 },
    /// A response status outside both the success and client-error ranges.
    Api { description: String, status: u16 },
}

/// The one-line account of an error: its own description, or the backend's
/// message for a structured client error.
pub open spec fn spec_describe(e: &Error) -> Seq<char> {
    match e {
        Error::Config { description } => description@,
        Error::Transport { description } => description@,
        Error::Deserialization { description } => description@,
        Error::Github { error, status } => error.message@,
        Error::Api { description, status } => description@,
    }
}

impl Error {
    /// Returns the one-line account of this error.
    pub fn describe(&self) -> (r: String)
        ensures
            r@ == spec_describe(self),
    {
        match self {
            Error::Config { description } => description.clone(),
            Error::Transport { description } => description.clone(),
            Error::Deserialization { description } => description.clone(),
            Error::Github { error, status: _ } => error.message.clone(),
            Error::Api { description, status: _ } => description.clone(),
        }
    }
}

} // verus!
