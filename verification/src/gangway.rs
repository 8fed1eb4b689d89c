//! Request routing of the HTTP ingress: which requests create sessions, which are forwarded
//! to a session and which upload files.

use crate::identifier::{SessionIdentifier, uuid_parsed, uuid_text};
use crate::creation::WebdriverErrorCode;
use crate::text::{eq_ignore_ascii_case, spec_eq_ignore_ascii_case, text_starts_with};
use vstd::prelude::*;
use vstd::string::*;

verus! {

/// Length of a session identifier in a path (a hyphenated UUID).
pub const SESSION_ID_LENGTH: usize = 36;

/// Prefix of all session specific paths.
pub open spec fn session_prefix() -> Seq<char> {
    "/session/"@
}

/// A request creates a session when it is a POST to `/session` (case-insensitive path).
pub fn is_session_creation_request(is_post: bool, path: &str) -> (r: bool)
    ensures
        r == (is_post && spec_eq_ignore_ascii_case(path@, "/session"@)),
{
    is_post && eq_ignore_ascii_case(path, "/session")
}

/// The session a path belongs to: the 36 characters after `/session/`, parsed as a UUID;
/// `None` when the path is shorter, has another prefix or the characters are no UUID.
pub open spec fn spec_session_of_path(path: Seq<char>) -> Option<SessionIdentifier> {
    if session_prefix().is_prefix_of(path) && path.len() >= 45 {
        match uuid_parsed(path.subrange(9, 45)) {
            Some(v) => Some(SessionIdentifier(v)),
            None => None,
        }
    } else {
        None
    }
}

/// Extracts the session identifier of a session specific path.
pub fn session_of_path(path: &str) -> (r: Option<SessionIdentifier>)
    ensures
        r == spec_session_of_path(path@),
{
    proof {
        reveal_strlit("/session/");
    }
    let prefix = "/session/";
    if !text_starts_with(path, prefix) {
        return None;
    }
    let n = path.unicode_len();
    let start = prefix.unicode_len();
    if n - start < SESSION_ID_LENGTH {
        return None;
    }
    let identifier = path.substring_char(start, start + SESSION_ID_LENGTH);
    SessionIdentifier::parse(identifier)
}

/// Path of the file upload endpoint of a session.
pub open spec fn file_upload_path(session_id: Seq<char>) -> Seq<char> {
    "/session/"@ + session_id + "/se/file"@
}

/// A request uploads a file when it is a POST to `/session/{id}/se/file` of the session
/// (case-insensitive path).
pub fn is_file_upload_request(is_post: bool, path: &str, session_id: &str) -> (r: bool)
    ensures
        r == (is_post && spec_eq_ignore_ascii_case(path@, file_upload_path(session_id@))),
{
    let mut expected = String::from_str("/session/");
    expected.append(session_id);
    expected.append("/se/file");
    is_post && eq_ignore_ascii_case(path, expected.as_str())
}

/// Error text returned when a request cannot be forwarded to the API.
pub fn api_forwarding_error(message: &str) -> (r: String)
    ensures
        r@ == "unable to forward request to API: "@ + message@,
{
    let mut r = String::from_str("unable to forward request to API: ");
    r.append(message);
    r
}


/// Why a request could not be forwarded to the API
#[derive(Debug, Clone, PartialEq, Eq)]
pub enum ApiForwardingFailure {
    /// Looking for an endpoint failed, with the given description
    DiscoveryFailed(String),
    /// No endpoint of the API is known
    NoEndpoint,
    /// The destination URI could not be built, with the given description
    UriConstructionFailed(String),
    /// Forwarding the request failed, with the given description
    ForwardFailed(String),
}

/// Description of a forwarding failure.
pub open spec fn api_failure_message(f: ApiForwardingFailure) -> Seq<char> {
    match f {
        ApiForwardingFailure::DiscoveryFailed(m) => m@,
        ApiForwardingFailure::NoEndpoint => "no endpoint available for API"@,
        ApiForwardingFailure::UriConstructionFailed(m) => m@,
        ApiForwardingFailure::ForwardFailed(m) => m@,
    }
}

/// HTTP status and body answering a request that could not be forwarded to the API: 500
/// when the destination URI could not be built, 502 (bad gateway) otherwise; the body
/// describes the failure.
pub fn api_forwarding_answer(failure: &ApiForwardingFailure) -> (r: (u16, String))
    ensures
        r.0 == (if *failure is UriConstructionFailed { 500u16 } else { 502u16 }),
        r.1@ == "unable to forward request to API: "@ + api_failure_message(*failure),
{
    match failure {
        ApiForwardingFailure::DiscoveryFailed(m) => (502, api_forwarding_error(m.as_str())),
        ApiForwardingFailure::NoEndpoint => {
            let r = api_forwarding_error("no endpoint available for API");
            proof {
                reveal_strlit("no endpoint available for API");
            }
            (502, r)
        },
        ApiForwardingFailure::UriConstructionFailed(m) => (500, api_forwarding_error(m.as_str())),
        ApiForwardingFailure::ForwardFailed(m) => (502, api_forwarding_error(m.as_str())),
    }
}


/// Why a request could not be forwarded to its session
#[derive(Debug, Clone, Copy, PartialEq, Eq, Structural)]
pub enum SessionForwardingFailure {
    /// endpoint discovery failed
    EndpointDiscoveryFailure,
    /// no endpoint available
    NoEndpoint,
    /// unable to construct destination URI
    URIConstructionFailed,
    /// unable to forward request
    UnableToForward,
}

/// Description of a session forwarding failure.
pub open spec fn session_failure_message(f: SessionForwardingFailure) -> Seq<char> {
    match f {
        SessionForwardingFailure::EndpointDiscoveryFailure => "endpoint discovery failed"@,
        SessionForwardingFailure::NoEndpoint => "no endpoint available"@,
        SessionForwardingFailure::URIConstructionFailed => "unable to construct destination URI"@,
        SessionForwardingFailure::UnableToForward => "unable to forward request"@,
    }
}

impl SessionForwardingFailure {
    /// Human readable description of the failure.
    pub fn describe(&self) -> (r: &'static str)
        ensures
            r@ == session_failure_message(*self),
    {
        match self {
            SessionForwardingFailure::EndpointDiscoveryFailure => "endpoint discovery failed",
            SessionForwardingFailure::NoEndpoint => "no endpoint available",
            SessionForwardingFailure::URIConstructionFailed => "unable to construct destination URI",
            SessionForwardingFailure::UnableToForward => "unable to forward request",
        }
    }
}

/// Answer to a request that could not be forwarded to session `id`: HTTP 500 with an
/// `UnknownError` whose message names the session, and the failure as its cause.
pub fn session_forwarding_answer(id: SessionIdentifier, failure: SessionForwardingFailure) -> (r: (
    u16,
    WebdriverErrorCode,
    String,
    &'static str,
))
    ensures
        r.0 == 500,
        r.1 == WebdriverErrorCode::UnknownError,
        r.2@ == "unable to forward request to session "@ + uuid_text(id.0),
        r.3@ == session_failure_message(failure),
{
    let mut message = String::from_str("unable to forward request to session ");
    let text = id.to_hyphenated_string();
    message.append(text.as_str());
    (500, WebdriverErrorCode::UnknownError, message, failure.describe())
}

} // verus!
