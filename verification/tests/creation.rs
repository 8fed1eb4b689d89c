use webgrid::container::ContainerImageSet;
use webgrid::creation::{
    created_notification, creation_answer, CreationAnswer, CreationStatus, SessionCreationResponderError,
    WebdriverErrorCode,
};
use webgrid::events::{SessionOperationalNotification, SessionTerminatedNotification, SessionTerminationReason};
use webgrid::gangway::{api_forwarding_answer, session_forwarding_answer, ApiForwardingFailure, SessionForwardingFailure};
use webgrid::identifier::SessionIdentifier;
use webgrid::options::{recording_launch_arguments, RecordingError};
use webgrid::provisioner::{job_image, job_template_variables, KubernetesProvisionerError};
use webgrid::text::split_white_space;
use webgrid::webdriver::capabilities::{Capabilities, CapabilitiesRequest};
use webgrid::webdriver::instance::{local_session_state, WebDriverError, WebDriverState};

const ID: u128 = 0x67e5_5044_10b1_426f_9247_bb68_0e5f_e0c8;
const ID_TEXT: &str = "67e55044-10b1-426f-9247-bb680e5fe0c8";

#[test]
fn creation_body_keeps_raw_capabilities() {
    let body = br#"{"capabilities": {"alwaysMatch": {"browserName": "chrome"}}, "other": 1}"#;
    let n = created_notification(SessionIdentifier(ID), body).unwrap();
    assert_eq!(n.id, SessionIdentifier(ID));
    assert_eq!(n.capabilities.as_str(), r#"{"alwaysMatch":{"browserName":"chrome"}}"#);
}

#[test]
fn creation_body_without_capabilities_is_refused() {
    assert_eq!(
        created_notification(SessionIdentifier(ID), b"{}").unwrap_err(),
        SessionCreationResponderError::InvalidRequestContent
    );
}

#[test]
fn creation_body_as_single_element_array() {
    let n = created_notification(SessionIdentifier(ID), br#"[{"browserName": "chrome"}]"#).unwrap();
    assert_eq!(n.capabilities.as_str(), r#"{"browserName":"chrome"}"#);
    assert_eq!(
        created_notification(SessionIdentifier(ID), b"[]").unwrap_err(),
        SessionCreationResponderError::InvalidRequestContent
    );
    assert_eq!(
        created_notification(SessionIdentifier(ID), b"[1, 2]").unwrap_err(),
        SessionCreationResponderError::InvalidRequestContent
    );
}

#[test]
fn invalid_creation_body_is_refused() {
    assert_eq!(
        created_notification(SessionIdentifier(ID), b"definitely-not-json").unwrap_err(),
        SessionCreationResponderError::InvalidRequestContent
    );
    assert_eq!(
        created_notification(SessionIdentifier(ID), b"42").unwrap_err(),
        SessionCreationResponderError::InvalidRequestContent
    );
}

#[test]
fn operational_session_is_answered_with_its_capabilities() {
    let status = CreationStatus::Operational(SessionOperationalNotification {
        id: SessionIdentifier(ID),
        actual_capabilities: "{ \"browserName\": \"chrome\" }".into(),
    });
    let answer = creation_answer(SessionIdentifier(ID), Some(status));
    assert_eq!(answer.status(), 200);
    assert_eq!(
        answer,
        CreationAnswer::Created(format!(
            "{{\"value\":{{\"sessionId\":\"{}\",\"capabilities\":{{\"browserName\":\"chrome\"}}}}}}",
            ID_TEXT
        ))
    );
}

#[test]
fn invalid_actual_capabilities_are_refused() {
    let status = CreationStatus::Operational(SessionOperationalNotification {
        id: SessionIdentifier(ID),
        actual_capabilities: "{broken".into(),
    });
    let answer = creation_answer(SessionIdentifier(ID), Some(status));
    assert_eq!(answer.status(), 500);
    assert_eq!(
        answer,
        CreationAnswer::Refused(
            WebdriverErrorCode::SessionNotCreated,
            SessionIdentifier(ID),
            SessionCreationResponderError::InvalidActualCapabilities
        )
    );
}

#[test]
fn failed_startup_and_dropped_status_are_refused() {
    let failed = CreationStatus::Failed(SessionTerminatedNotification {
        id: SessionIdentifier(ID),
        reason: SessionTerminationReason::ModuleTimeout,
    });
    assert_eq!(
        creation_answer(SessionIdentifier(1), Some(failed)),
        CreationAnswer::Refused(
            WebdriverErrorCode::SessionNotCreated,
            SessionIdentifier(1),
            SessionCreationResponderError::SessionStartupFailed(SessionTerminationReason::ModuleTimeout)
        )
    );
    assert_eq!(
        creation_answer(SessionIdentifier(1), None),
        CreationAnswer::Refused(
            WebdriverErrorCode::SessionNotCreated,
            SessionIdentifier(1),
            SessionCreationResponderError::PendingRequestLimitExceeded
        )
    );
    assert_eq!(SessionCreationResponderError::PendingRequestLimitExceeded.describe(), "pending request limit exceeded");
}

#[test]
fn driver_answer_gives_session_state() {
    let body = br#"{"value": {"sessionId": "abc", "capabilities": {"a": 1}}}"#;
    assert_eq!(
        local_session_state(body),
        Ok(WebDriverState { internal_session_id: "abc".into(), actual_capabilities: r#"{"a":1}"#.into() })
    );
    assert_eq!(local_session_state(b"nope"), Err(WebDriverError::ParseFailure("nope".into())));
    assert_eq!(
        local_session_state(br#"{"value": {"sessionId": 5, "capabilities": {}}}"#),
        Err(WebDriverError::ParseFailure(r#"{"value": {"sessionId": 5, "capabilities": {}}}"#.into()))
    );
    assert_eq!(
        local_session_state(br#"{"value": {"sessionId": "abc"}}"#),
        Err(WebDriverError::ParseFailure(r#"{"value": {"sessionId": "abc"}}"#.into()))
    );
    assert_eq!(
        local_session_state(br#"{"value": {"sessionId": "a\"b", "capabilities": null}}"#),
        Ok(WebDriverState { internal_session_id: "a\"b".into(), actual_capabilities: "null".into() })
    );
}

#[test]
fn job_image_follows_the_request() {
    let images = ContainerImageSet::from_str("a=chrome::82,b=firefox::70").unwrap();
    assert_eq!(job_image(&images, None).unwrap_err(), KubernetesProvisionerError::InvalidCapabilities);
    let mut caps = Capabilities::empty();
    caps.browser_name = Some("firefox".into());
    let request = CapabilitiesRequest { first_match: None, always_match: Some(caps.clone()) };
    assert_eq!(job_image(&images, Some(request)).unwrap().identifier, "b");
    caps.browser_name = Some("safari".into());
    let request = CapabilitiesRequest { first_match: None, always_match: Some(caps) };
    assert_eq!(job_image(&images, Some(request)).unwrap_err(), KubernetesProvisionerError::NoImageFound);
}

#[test]
fn job_template_variables_in_order() {
    let images = ContainerImageSet::from_str("img=chrome::82").unwrap();
    let vars = job_template_variables("webgrid-session-67e55044", &SessionIdentifier(ID), &images.0[0], "inst", "{}");
    let names: Vec<&str> = vars.iter().map(|v| v.0).collect();
    assert_eq!(names, vec!["job_name", "session_id", "image_name", "provisioner_instance", "capabilities"]);
    assert_eq!(vars[1].1, ID_TEXT);
    assert_eq!(vars[2].1, "img");
}

#[test]
fn api_forwarding_answers() {
    assert_eq!(
        api_forwarding_answer(&ApiForwardingFailure::NoEndpoint),
        (502, "unable to forward request to API: no endpoint available for API".to_string())
    );
    assert_eq!(api_forwarding_answer(&ApiForwardingFailure::UriConstructionFailed("bad uri".into())).0, 500);
    assert_eq!(api_forwarding_answer(&ApiForwardingFailure::ForwardFailed("reset".into())).0, 502);
}

#[test]
fn recording_is_not_restarted() {
    assert_eq!(recording_launch_arguments(true, "-y").unwrap_err(), RecordingError::NotRestartable);
    assert_eq!(
        recording_launch_arguments(false, "  -y -framerate 5\n  -f\thls ").unwrap(),
        vec!["-y", "-framerate", "5", "-f", "hls"]
    );
}

#[test]
fn white_space_split_matches_std() {
    for text in ["", "   ", "a", " a  b ", "x\u{3000}y\u{a0}z", "tab\tnew\nline\r\n"] {
        let expected: Vec<String> = text.split_whitespace().map(String::from).collect();
        assert_eq!(split_white_space(text), expected);
    }
}

#[test]
fn session_forwarding_answer_names_session_and_cause() {
    let (status, code, message, cause) = session_forwarding_answer(SessionIdentifier(ID), SessionForwardingFailure::NoEndpoint);
    assert_eq!(status, 500);
    assert_eq!(code, WebdriverErrorCode::UnknownError);
    assert_eq!(message, format!("unable to forward request to session {}", ID_TEXT));
    assert_eq!(cause, "no endpoint available");
}
