//! The response classifier: the status-driven three-way branch every
//! operation takes once a response has arrived.
//!
//! Decoding a body is the work of an outside collaborator (a JSON decoder);
//! the caller first asks which decode the status prescribes, attempts
//! exactly that decode, and hands the outcome back here to be turned into
//! the operation's typed result.

use vstd::prelude::*;
use vstd::string::*;

use crate::error::{Error, GithubClientErrorBody};
use crate::text::{chars_to_string, push_str_chars};

verus! {

/// A status code in the HTTP success range.
pub open spec fn status_is_success(status: u16) -> bool {
    200 <= status < 300
}

/// A status code in the HTTP client-error range.
pub open spec fn status_is_client_error(status: u16) -> bool {
    400 <= status < 500
}

/// Which decode a response status prescribes for the body.
#[derive(Debug, Clone, Copy, PartialEq, Eq, Structural)]
pub enum BodyKind {
    /// Success range: decode the body as the operation's success shape.
    Success,
    /// Client-error range: decode the body as the structured error shape.
    ClientError,
    /// Any other range: the body is not interpreted at all.
    Ignored,
}

/// The decode that `status` prescribes.
pub open spec fn spec_body_kind(status: u16) -> BodyKind {
    if status_is_success(status) {
        BodyKind::Success
    } else if status_is_client_error(status) {
        BodyKind::ClientError
    } else {
        BodyKind::Ignored
    }
}

/// Returns the decode that `status` prescribes.
pub fn body_kind(status: u16) -> (k: BodyKind)
    ensures
        k == spec_body_kind(status),
{
    if 200 <= status && status < 300 {
        BodyKind::Success
    } else if 400 <= status && status < 500 {
        BodyKind::ClientError
    } else {
        BodyKind::Ignored
    }
}

/// The outcome of attempting exactly the decode the status prescribed.
#[derive(Debug)]
pub enum DecodedBody<T> {
    /// The body decoded as the operation's success shape.
    Success(T),
    /// The body decoded as the backend's structured client-error shape.
    ClientError(GithubClientErrorBody),
    /// The prescribed decode failed: the body did not match its shape.
    Undecodable,
    /// No decode was prescribed for this status.
    Ignored,
}

/// Whether `body` is a possible outcome of the decode that `status`
/// prescribes: the caller attempted the right decode and nothing else.
pub open spec fn body_matches_kind<T>(body: DecodedBody<T>, status: u16) -> bool {
    match body {
        DecodedBody::Success(_) => status_is_success(status),
        DecodedBody::ClientError(_) => status_is_client_error(status),
        DecodedBody::Undecodable => status_is_success(status) || status_is_client_error(status),
        DecodedBody::Ignored => !status_is_success(status) && !status_is_client_error(status),
    }
}

/// The description a deserialization failure carries.
pub open spec fn deserialization_message() -> Seq<char> {
    "Response body did not match the expected shape."@
}

/// The description an unexpected-status failure carries.
pub open spec fn unexpected_status_message() -> Seq<char> {
    "Unexpected response status code."@
}

/// Turns a response's status and decoded body into the operation's result:
/// the decoded value on a success-range status, a structured client error
/// carrying exactly the response's status and body on a client-error
/// status, a deserialization error where the prescribed decode failed, and
/// an unexpected-status error, carrying the raw status, everywhere else.
pub fn classify_response<T>(status: u16, body: DecodedBody<T>) -> (r: Result<T, Error>)
    requires
        body_matches_kind(body, status),
    ensures
        match body {
            DecodedBody::Success(t) => r matches Ok(v) && v == t,
            DecodedBody::ClientError(e) => r matches Err(err) && (err matches Error::Github {
                error,
                status: st,
            } && error == e && st == status),
            DecodedBody::Undecodable => r matches Err(err) && (err matches Error::Deserialization {
                description,
            } && description@ == deserialization_message()),
            DecodedBody::Ignored => r matches Err(err) && (err matches Error::Api {
                description,
                status: st,
            } && description@ == unexpected_status_message() && st == status),
        },
        r is Ok <==> body is Success,
{
    match body {
        DecodedBody::Success(t) => Ok(t),
        DecodedBody::ClientError(e) => Err(Error::Github { error: e, status }),
        DecodedBody::Undecodable => {
            let mut msg: Vec<char> = Vec::new();
            push_str_chars(&mut msg, "Response body did not match the expected shape.");
            proof {
                assert(msg@ =~= deserialization_message());
            }
            Err(Error::Deserialization { description: chars_to_string(msg) })
        },
        DecodedBody::Ignored => {
            let mut msg: Vec<char> = Vec::new();
            push_str_chars(&mut msg, "Unexpected response status code.");
            proof {
                assert(msg@ =~= unexpected_status_message());
            }
            Err(Error::Api { description: chars_to_string(msg), status })
        },
    }
}

} // verus!
