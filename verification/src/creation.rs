//! Session creation through the HTTP ingress: from the request body to the created-session
//! notification, and from the session's startup outcome to the answer given to the client.

use crate::events::{SessionCreatedNotification, SessionOperationalNotification, SessionTerminatedNotification,
    SessionTerminationReason};
use crate::identifier::{SessionIdentifier, uuid_text};
use crate::webdriver::capabilities::{opt_text, RawCapabilitiesRequest};
use crate::json::{json_shape, read_json, single_field, struct_fields};
use vstd::prelude::*;
use vstd::string::*;

verus! {

/// The capabilities of a session creation request body, as compact JSON: the single field
/// `capabilities` of the structure the body holds (see `struct_fields`); `None` where the
/// body is no JSON or holds no such structure.
pub open spec fn creation_capabilities(body: Seq<u8>) -> Option<Seq<char>> {
    match json_shape(body) {
        Some(shape) => match struct_fields(shape, seq!["capabilities"@]) {
            Some(fields) => Some(fields[0]),
            None => None,
        },
        None => None,
    }
}

/// What reading a text with `serde_json::from_str` as a JSON value and writing it back with
/// `serde_json::to_string` gives; `None` where the text is no JSON.
pub uninterp spec fn reserialized_json(text: Seq<char>) -> Option<Seq<char>>;

/// Reads the text as a JSON value and writes it back in compact form; the result is only
/// named.
#[verifier::external_body]
pub(crate) fn reserialize_json(text: &str) -> (r: Option<String>)
    ensures
        opt_text(r) == reserialized_json(text@),
{
    let value: serde_json::Value = serde_json::from_str(text).ok()?;
    serde_json::to_string(&value).ok()
}

/// Why a session could not be created
#[derive(Debug, Clone, PartialEq, Eq)]
pub enum SessionCreationResponderError {
    /// The capabilities the session reported are no JSON
    InvalidActualCapabilities,
    /// The response could not be serialized
    ResponseSerializationFailed,
    /// The request body could not be read
    InvalidRequestBody,
    /// The request body is no valid session creation request
    InvalidRequestContent,
    /// The created-session notification could not be handed on
    CreationNotificationPublishFailed,
    /// The session terminated during its startup, for the given reason
    SessionStartupFailed(SessionTerminationReason),
    /// No status arrived for the pending request
    PendingRequestLimitExceeded,
}

/// Description of a creation error.
pub open spec fn creation_error_message(e: SessionCreationResponderError) -> Seq<char> {
    match e {
        SessionCreationResponderError::InvalidActualCapabilities => "unable to parse actual capabilities"@,
        SessionCreationResponderError::ResponseSerializationFailed => "unable to serialize response"@,
        SessionCreationResponderError::InvalidRequestBody => "request body invalid"@,
        SessionCreationResponderError::InvalidRequestContent => "request content is invalid"@,
        SessionCreationResponderError::CreationNotificationPublishFailed => "unable to submit session creation request"@,
        SessionCreationResponderError::SessionStartupFailed(_) => "session did not start up properly"@,
        SessionCreationResponderError::PendingRequestLimitExceeded => "pending request limit exceeded"@,
    }
}

impl SessionCreationResponderError {
    /// Human readable description of the error.
    pub fn describe(&self) -> (r: &'static str)
        ensures
            r@ == creation_error_message(*self),
    {
        match self {
            SessionCreationResponderError::InvalidActualCapabilities => "unable to parse actual capabilities",
            SessionCreationResponderError::ResponseSerializationFailed => "unable to serialize response",
            SessionCreationResponderError::InvalidRequestBody => "request body invalid",
            SessionCreationResponderError::InvalidRequestContent => "request content is invalid",
            SessionCreationResponderError::CreationNotificationPublishFailed => "unable to submit session creation request",
            SessionCreationResponderError::SessionStartupFailed(_) => "session did not start up properly",
            SessionCreationResponderError::PendingRequestLimitExceeded => "pending request limit exceeded",
        }
    }
}

/// Error codes of the W3C WebDriver protocol used by the ingress
#[derive(Debug, Clone, Copy, PartialEq, Eq, Structural)]
pub enum WebdriverErrorCode {
    /// A new session could not be created
    SessionNotCreated,
    /// An unknown error occurred
    UnknownError,
}

/// How a session started up, as reported to the pending creation request.
#[derive(Debug, Clone, PartialEq, Eq)]
pub enum CreationStatus {
    /// The session is ready to take commands
    Operational(SessionOperationalNotification),
    /// The session terminated during its startup
    Failed(SessionTerminatedNotification),
}

/// Answer to a session creation request.
#[derive(Debug, Clone, PartialEq, Eq)]
pub enum CreationAnswer {
    /// HTTP 200 with the given JSON body
    Created(String),
    /// HTTP 500 with a WebDriver error of the given code, for the given session and cause
    Refused(WebdriverErrorCode, SessionIdentifier, SessionCreationResponderError),
}

impl CreationAnswer {
    /// HTTP status code of the answer.
    pub fn status(&self) -> (r: u16)
        ensures
            r == (if *self is Created { 200u16 } else { 500u16 }),
    {
        match self {
            CreationAnswer::Created(_) => 200,
            CreationAnswer::Refused(_, _, _) => 500,
        }
    }
}

/// Body of a successful answer: `{"value":{"sessionId":"<id>","capabilities":<caps>}}` in
/// compact JSON, with the actual capabilities written back as compact JSON; `None` where
/// they are no JSON. The identifier is written between quotes as it stands: the
/// hyphenated hexadecimal text of a session needs no escaping.
pub open spec fn success_body(id: Seq<char>, actual: Seq<char>) -> Option<Seq<char>> {
    match reserialized_json(actual) {
        Some(caps) => Some("{\"value\":{\"sessionId\":\""@ + id + "\",\"capabilities\":"@ + caps + "}}"@),
        None => None,
    }
}

/// The notification announcing a session created from a request body: its capabilities
/// member as raw JSON, or `InvalidRequestContent` where the body is no creation request.
pub fn created_notification(id: SessionIdentifier, body: &[u8]) -> (r: Result<SessionCreatedNotification, SessionCreationResponderError>)
    ensures
        match creation_capabilities(body@) {
            Some(t) => r matches Ok(n) && n.id == id && n.capabilities.0@ == t,
            None => r == Err::<SessionCreatedNotification, SessionCreationResponderError>(
                SessionCreationResponderError::InvalidRequestContent,
            ),
        },
{
    let capabilities = match read_json(body) {
        Some(shape) => single_field(shape, "capabilities"),
        None => None,
    };
    match capabilities {
        Some(raw) => Ok(SessionCreatedNotification { id, capabilities: RawCapabilitiesRequest::new(raw) }),
        None => Err(SessionCreationResponderError::InvalidRequestContent),
    }
}

/// The success answer for an operational session, or a refusal with
/// `InvalidActualCapabilities` where the capabilities it reported are no JSON.
pub fn success_answer(notification: &SessionOperationalNotification) -> (r: CreationAnswer)
    ensures
        match success_body(uuid_text(notification.id.0), notification.actual_capabilities@) {
            Some(b) => r matches CreationAnswer::Created(body) && body@ == b,
            None => r == CreationAnswer::Refused(
                WebdriverErrorCode::SessionNotCreated,
                notification.id,
                SessionCreationResponderError::InvalidActualCapabilities,
            ),
        },
{
    match reserialize_json(notification.actual_capabilities.as_str()) {
        Some(caps) => {
            let id = notification.id.to_hyphenated_string();
            let mut body = String::from_str("{\"value\":{\"sessionId\":\"");
            body.append(id.as_str());
            body.append("\",\"capabilities\":");
            body.append(caps.as_str());
            body.append("}}");
            proof {
                reveal_strlit("{\"value\":{\"sessionId\":\"");
                reveal_strlit("\",\"capabilities\":");
                reveal_strlit("}}");
            }
            CreationAnswer::Created(body)
        },
        None => CreationAnswer::Refused(
            WebdriverErrorCode::SessionNotCreated,
            notification.id,
            SessionCreationResponderError::InvalidActualCapabilities,
        ),
    }
}

/// Answer once the pending creation request of session `id` has learnt how the session
/// started (`None`: the status channel was dropped). An operational session is answered
/// with its success body; a failed startup and a dropped channel are refused with
/// `SessionNotCreated`.
pub fn creation_answer(id: SessionIdentifier, status: Option<CreationStatus>) -> (r: CreationAnswer)
    ensures
        match status {
            Some(CreationStatus::Operational(n)) => match success_body(uuid_text(n.id.0), n.actual_capabilities@) {
                Some(b) => r matches CreationAnswer::Created(body) && body@ == b,
                None => r == CreationAnswer::Refused(
                    WebdriverErrorCode::SessionNotCreated,
                    n.id,
                    SessionCreationResponderError::InvalidActualCapabilities,
                ),
            },
            Some(CreationStatus::Failed(n)) => r == CreationAnswer::Refused(
                WebdriverErrorCode::SessionNotCreated,
                id,
                SessionCreationResponderError::SessionStartupFailed(n.reason),
            ),
            None => r == CreationAnswer::Refused(
                WebdriverErrorCode::SessionNotCreated,
                id,
                SessionCreationResponderError::PendingRequestLimitExceeded,
            ),
        },
{
    match status {
        Some(CreationStatus::Operational(n)) => success_answer(&n),
        Some(CreationStatus::Failed(n)) => CreationAnswer::Refused(
            WebdriverErrorCode::SessionNotCreated,
            id,
            SessionCreationResponderError::SessionStartupFailed(n.reason),
        ),
        None => CreationAnswer::Refused(
            WebdriverErrorCode::SessionNotCreated,
            id,
            SessionCreationResponderError::PendingRequestLimitExceeded,
        ),
    }
}

} // verus!
