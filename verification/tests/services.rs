use webgrid::api::{metadata_field_path, metadata_update_fields, Query, SessionQuery, SessionRecord, SessionState};
use webgrid::discovery::WebgridServiceDescriptor;
use webgrid::events::{BlackboxError, SessionCreatedNotification, SessionTerminationReason};
use webgrid::gangway::{api_forwarding_error, is_file_upload_request, is_session_creation_request, session_of_path};
use webgrid::identifier::SessionIdentifier;
use webgrid::options::{MongoDBOptions, ScreenRecordingOptions};
use webgrid::provisioner::{
    alive_sessions, failed_job_purge, job_name, namespace_or_default, FailedJobAlert, JobStatus, JobSummary,
};
use webgrid::redis_log::{command_log_line, packed_command_log_line};
use webgrid::requests::ProvisionerMatchResponse;
use webgrid::scheduling::{
    metadata_verdict, pick_provisioner, scheduling_actions, MetadataVerdict, SchedulingAction, SchedulingServiceError,
};
use webgrid::services::{service_endpoint, uses_shared_connection, RedisConnectionVariant};
use webgrid::text::{eq_ignore_ascii_case, parse_u16, split_into_two, text_starts_with};
use webgrid::webdriver::capabilities::{Capabilities, RawCapabilitiesRequest, WebGridOptions};
use webgrid::webdriver::instance::{ScreenResolution, WebDriver, WebDriverVariant};

const ID: u128 = 0x67e5504410b1426f9247bb680e5fe0c8;
const ID_TEXT: &str = "67e55044-10b1-426f-9247-bb680e5fe0c8";

fn caps_with_metadata(pairs: &[(&str, &str)]) -> Capabilities {
    let mut c = Capabilities::empty();
    c.webgrid_options = Some(WebGridOptions {
        metadata: Some(pairs.iter().map(|(k, v)| (k.to_string(), v.to_string())).collect()),
        disable_recording: false,
    });
    c
}

#[test]
fn identifier_text_and_parse() {
    assert_eq!(SessionIdentifier(ID).to_hyphenated_string(), ID_TEXT);
    assert_eq!(SessionIdentifier(0).to_hyphenated_string(), "00000000-0000-0000-0000-000000000000");
    assert_eq!(SessionIdentifier::parse(ID_TEXT), Some(SessionIdentifier(ID)));
    assert_eq!(SessionIdentifier::parse("67E55044-10B1-426F-9247-BB680E5FE0C8"), Some(SessionIdentifier(ID)));
    assert_eq!(SessionIdentifier::parse("not-a-uuid"), None);
}

#[test]
fn node_service_identifier() {
    assert_eq!(
        WebgridServiceDescriptor::Node(SessionIdentifier(ID)).service_identifier(),
        format!("node-{}", ID_TEXT)
    );
}

#[test]
fn gangway_routes() {
    assert!(is_session_creation_request(true, "/session"));
    assert!(is_session_creation_request(true, "/SESSION"));
    assert!(!is_session_creation_request(false, "/session"));
    assert!(!is_session_creation_request(true, "/session/"));
    assert_eq!(session_of_path(&format!("/session/{}/url", ID_TEXT)), Some(SessionIdentifier(ID)));
    assert_eq!(session_of_path(&format!("/session/{}", ID_TEXT)), Some(SessionIdentifier(ID)));
    assert_eq!(session_of_path("/session/short"), None);
    assert_eq!(session_of_path(&format!("/status/{}", ID_TEXT)), None);
    assert_eq!(session_of_path("/session/zzzzzzzz-10b1-426f-9247-bb680e5fe0c8"), None);
    assert!(is_file_upload_request(true, "/session/ABC/se/FILE", "abc"));
    assert!(!is_file_upload_request(true, "/session/abc/se/files", "abc"));
    assert!(!is_file_upload_request(false, "/session/abc/se/file", "abc"));
    assert_eq!(api_forwarding_error("no endpoint"), "unable to forward request to API: no endpoint");
}

#[test]
fn kubernetes_job_rules() {
    let running = JobSummary { status: Some(JobStatus { succeeded: Some(0), failed: None }), session_label: Some(ID_TEXT.into()) };
    let done = JobSummary { status: Some(JobStatus { succeeded: Some(1), failed: None }), session_label: Some(ID_TEXT.into()) };
    let failed = JobSummary { status: Some(JobStatus { succeeded: None, failed: Some(2) }), session_label: Some(ID_TEXT.into()) };
    let unlabeled = JobSummary { status: None, session_label: None };
    let garbage = JobSummary { status: None, session_label: Some("garbage".into()) };
    assert!(running.is_running() && !running.is_successful() && !running.has_failed());
    assert!(done.is_successful() && !done.is_running());
    assert!(failed.has_failed() && !failed.is_running());
    assert!(unlabeled.is_running());
    assert_eq!(
        alive_sessions(&vec![running.clone(), done, failed, unlabeled, garbage, running]),
        vec![SessionIdentifier(ID), SessionIdentifier(ID)]
    );
    assert_eq!(failed_job_purge(150), (101, FailedJobAlert::Error));
    assert_eq!(failed_job_purge(101), (52, FailedJobAlert::Error));
    assert_eq!(failed_job_purge(100), (0, FailedJobAlert::Warning));
    assert_eq!(failed_job_purge(11), (0, FailedJobAlert::Warning));
    assert_eq!(failed_job_purge(10), (0, FailedJobAlert::Quiet));
    assert_eq!(job_name("", &SessionIdentifier(ID)), "session-67e55044");
    assert_eq!(job_name("dev-", &SessionIdentifier(ID)), "dev-session-67e55044");
    assert_eq!(namespace_or_default(None), "webgrid");
    assert_eq!(namespace_or_default(Some("grid".into())), "grid");
}

#[test]
fn redis_command_rendering() {
    assert_eq!(command_log_line("*2\r\n$3\r\nGET\r\n$3\r\nkey\r\n"), "REDIS -> GET key \n");
    assert_eq!(command_log_line(""), "REDIS -> \n");
    assert_eq!(packed_command_log_line(b"*1\r\n$4\r\nPING\r\n"), "REDIS -> PING \n");
    assert!(uses_shared_connection(RedisConnectionVariant::Multiplexed));
    assert!(!uses_shared_connection(RedisConnectionVariant::Owned));
    assert!(!uses_shared_connection(RedisConnectionVariant::Pooled));
    assert_eq!(service_endpoint("api", 48048), "api:48048");
}

#[test]
fn api_views() {
    assert_eq!(SessionState::Created.database_key(), "createdAt");
    assert_eq!(SessionState::Scheduled.database_key(), "scheduledAt");
    assert_eq!(SessionState::Provisioned.database_key(), "provisionedAt");
    assert_eq!(SessionState::Operational.database_key(), "operationalAt");
    assert_eq!(SessionState::Terminated.database_key(), "terminatedAt");
    assert_eq!(Query.session(), SessionQuery);
    assert_eq!(SessionQuery::latest_limit(None), 10);
    assert_eq!(SessionQuery::latest_limit(Some(3)), 3);
    assert_eq!(SessionQuery::count_filter_keys(SessionState::Created, SessionState::Terminated), ("createdAt", "terminatedAt"));
    assert_eq!(metadata_field_path("project"), "clientMetadata.project");
    assert_eq!(
        metadata_update_fields(&vec![("k".into(), "v".into())]),
        vec![("clientMetadata.k".to_string(), "v".to_string())]
    );
    let record = SessionRecord {
        id: SessionIdentifier(ID),
        recording_bytes: Some(0x1_0000_0005),
        provisioner: Some("p1".into()),
        client_metadata: vec![("a".into(), "1".into())],
        provisioner_metadata: None,
        browser_name: Some("chrome".into()),
        browser_version: None,
    };
    assert_eq!(record.id(), ID_TEXT);
    let video = record.video();
    assert_eq!(video.playlist, format!("/storage/{}/screen.m3u8", ID_TEXT));
    assert_eq!(video.size, 5);
    assert_eq!(record.provisioner().map(|p| p.id), Some("p1".to_string()));
    let metadata = record.metadata();
    assert_eq!(metadata.client.len(), 1);
    assert_eq!(metadata.client[0].key, "a");
    assert!(metadata.provisioner.is_empty());
    assert_eq!(record.browser(), None);
    let full = SessionRecord { browser_version: Some("81".into()), recording_bytes: None, ..record };
    assert_eq!(full.browser().map(|b| (b.name, b.version)), Some(("chrome".to_string(), "81".to_string())));
    assert_eq!(full.video().size, 0);
}

#[test]
fn recording_arguments_match_reference_format() {
    let options = ScreenRecordingOptions {
        crf: 46,
        max_bitrate: 450000,
        input: "-rtbufsize 1500M -probesize 100M -video_size 1920x1080 -f x11grab -draw_mouse 0 -i :42".into(),
        framerate: 5,
        segment_duration: 6,
    };
    let port = 40006u16;
    let output = format!("-method PUT http://127.0.0.1:{}/screen.m3u8", port);
    let expected = format!(r#"
        -y -framerate {framerate} {input} -vf scale=w=1280:h=720:force_original_aspect_ratio=decrease
        -c:v libx264 -preset ultrafast -crf {crf} -maxrate {maxrate} -bufsize {bufsize} -pix_fmt yuv420p -tune stillimage -x264-params keyint={keyint}:scenecut=0:keyint_min={keyint} -g {framerate}
        -f hls -hls_playlist_type event -hls_time {segment_duration}
        -hls_segment_type fmp4 -hls_flags program_date_time
        {output}
                "#,
        input = options.input,
        keyint = options.framerate * 2,
        framerate = options.framerate,
        output = output,
        crf = options.crf,
        maxrate = options.max_bitrate,
        bufsize = options.max_bitrate * 2,
        segment_duration = options.segment_duration
    )
    .trim()
    .replace("\n", " ");
    assert_eq!(options.generate_arguments(port), expected);
    let with_newline = ScreenRecordingOptions { input: "-i\n:42".into(), ..options };
    assert!(with_newline.generate_arguments(port).contains(" -i :42 "));
    assert!(MongoDBOptions::creation_failure_tolerated(Some(48)));
    assert!(!MongoDBOptions::creation_failure_tolerated(Some(13)));
    assert!(!MongoDBOptions::creation_failure_tolerated(None));
}

#[test]
fn resolution_and_variant_parsing() {
    assert_eq!(ScreenResolution::from_str("1920x1080"), Ok(ScreenResolution(1920, 1080)));
    assert_eq!(ScreenResolution::from_str("+1x+2"), Ok(ScreenResolution(1, 2)));
    assert_eq!(ScreenResolution::from_str("1920"), Err("missing 'x' separator in resolution"));
    assert_eq!(
        ScreenResolution::from_str("70000x1"),
        Err("unable to convert width and height components to unsigned integers")
    );
    assert_eq!(
        ScreenResolution::from_str("1x2x3"),
        Err("unable to convert width and height components to unsigned integers")
    );
    assert_eq!("800x600".parse::<ScreenResolution>(), Ok(ScreenResolution(800, 600)));
    assert_eq!(WebDriverVariant::from_str("Chrome"), Ok(WebDriverVariant::Chrome));
    assert_eq!(WebDriverVariant::from_str("FIREFOX"), Ok(WebDriverVariant::Firefox));
    assert_eq!(WebDriverVariant::from_str("safari"), Ok(WebDriverVariant::Safari));
    assert_eq!(WebDriverVariant::from_str("edge"), Err("unknown webdriver variant"));
    assert_eq!(WebDriverVariant::from_lowercase_name("Chrome"), Err("unknown webdriver variant"));
    assert_eq!(WebDriverVariant::Chrome.extra_arguments(), vec!["--port=4444"]);
    assert_eq!(WebDriverVariant::Safari.extra_arguments(), vec!["--diagnose", "-p", "4444"]);
    assert_eq!(WebDriverVariant::Firefox.extra_arguments(), vec!["-p", "4444"]);
    assert_eq!(WebDriverVariant::Safari.port(), 4444);
}

#[test]
fn webdriver_builder() {
    let d = WebDriver::default();
    assert_eq!(d.binary_location(), "/");
    assert_eq!(d.driver_variant(), WebDriverVariant::Firefox);
    assert_eq!(d.window_resolution(), ScreenResolution(1920, 1080));
    assert_eq!(d.session_capabilities(), "{}");
    assert_eq!(d.ready_timeout(), std::time::Duration::from_secs(30));
    let d = d
        .binary("/usr/bin/chromedriver")
        .variant(WebDriverVariant::Chrome)
        .resolution(ScreenResolution(1280, 720))
        .capabilities("{\"a\":1}")
        .startup_timeout(std::time::Duration::from_secs(5));
    assert_eq!(d.binary_location(), "/usr/bin/chromedriver");
    assert_eq!(d.driver_variant(), WebDriverVariant::Chrome);
    assert_eq!(d.ready_timeout(), std::time::Duration::from_secs(5));
    assert_eq!(d.status_url(), "http://127.0.0.1:4444/status");
    assert_eq!(d.session_url(), "http://127.0.0.1:4444/session");
    assert_eq!(d.session_request_body(), "{\"capabilities\": {\"a\":1} }");
    assert_eq!(d.window_rect_url("abc"), "http://127.0.0.1:4444/session/abc/window/rect");
    assert_eq!(d.window_rect_body(), "{\"x\": 0, \"y\": 0, \"width\": 1280, \"height\": 720}");
}

#[test]
fn text_helpers() {
    assert_eq!(split_into_two("a::b::c", "::"), Some(("a".to_string(), "b::c".to_string())));
    assert_eq!(split_into_two("abc", "::"), None);
    assert_eq!(split_into_two("é=ü", "="), Some(("é".to_string(), "ü".to_string())));
    assert_eq!(parse_u16("65535"), Some(65535));
    assert_eq!(parse_u16("65536"), None);
    assert_eq!(parse_u16("+"), None);
    assert_eq!(parse_u16(""), None);
    assert_eq!(parse_u16("-1"), None);
    assert_eq!(parse_u16("007"), Some(7));
    assert!(eq_ignore_ascii_case("AbC", "aBc"));
    assert!(!eq_ignore_ascii_case("Äb", "äb"));
    assert!(text_starts_with("81.0.4044", "81"));
    assert!(text_starts_with("81", ""));
    assert!(!text_starts_with("8", "81"));
}

#[test]
fn accept_metadata_when_required_fields_present() {
    let sets = vec![caps_with_metadata(&[("project", "webgrid")])];
    let verdict = metadata_verdict(&sets, &vec!["project".to_string()]);
    assert_eq!(verdict, MetadataVerdict::Publish(vec![("project".to_string(), "webgrid".to_string())]));
}

#[test]
fn reject_missing_or_incomplete_metadata() {
    let required = vec!["project".to_string()];
    assert_eq!(metadata_verdict(&vec![Capabilities::empty()], &required), MetadataVerdict::Missing("project".into()));
    let incomplete = vec![caps_with_metadata(&[("pipeline", "1337")])];
    assert_eq!(metadata_verdict(&incomplete, &required), MetadataVerdict::Missing("project".into()));
    let two = vec!["a".to_string(), "b".to_string(), "c".to_string()];
    assert_eq!(metadata_verdict(&vec![caps_with_metadata(&[("b", "x")])], &two), MetadataVerdict::Missing("a,c".into()));
    assert_eq!(metadata_verdict(&vec![], &two), MetadataVerdict::Missing("a,b,c".into()));
    assert_eq!(metadata_verdict(&vec![Capabilities::empty()], &vec![]), MetadataVerdict::NothingToPublish);
    let later = vec![Capabilities::empty(), caps_with_metadata(&[("a", "1")])];
    assert_eq!(metadata_verdict(&later, &vec![]), MetadataVerdict::Publish(vec![("a".to_string(), "1".to_string())]));
}

#[test]
fn provisioner_selection() {
    assert_eq!(pick_provisioner(vec![]), Err(SchedulingServiceError::NoProvisioner));
    assert_eq!(pick_provisioner(vec![ProvisionerMatchResponse { provisioner: "some-id".into() }]), Ok("some-id".into()));
    for _ in 0..20 {
        let picked = pick_provisioner(vec![
            ProvisionerMatchResponse { provisioner: "a".into() },
            ProvisionerMatchResponse { provisioner: "b".into() },
        ])
        .unwrap();
        assert!(picked == "a" || picked == "b");
    }
}

#[test]
fn scheduling_outcomes() {
    let created = SessionCreatedNotification { id: SessionIdentifier(ID), capabilities: RawCapabilitiesRequest::new("{}".into()) };
    let actions = scheduling_actions(&created, Ok("some-id".into()));
    assert_eq!(actions.len(), 2);
    match &actions[0] {
        SchedulingAction::AssignJob(job, ext) => {
            assert_eq!(job.session_id, SessionIdentifier(ID));
            assert_eq!(job.capabilities.as_str(), "{}");
            assert_eq!(ext, "some-id");
        },
        other => panic!("unexpected {:?}", other),
    }
    match &actions[1] {
        SchedulingAction::AnnounceScheduled(n) => assert_eq!(n.provisioner, "some-id"),
        other => panic!("unexpected {:?}", other),
    }
    let failed = scheduling_actions(&created, Err(SchedulingServiceError::MissingMandatoryMetadata("project".into())));
    match &failed[0] {
        SchedulingAction::AnnounceFailure(n) => assert_eq!(
            n.reason,
            SessionTerminationReason::StartupFailed(BlackboxError {
                message: "required metadata fields were not provided: project".into()
            })
        ),
        other => panic!("unexpected {:?}", other),
    }
    let parsing = scheduling_actions(&created, Err(SchedulingServiceError::ParsingFailed("bad".into())));
    match &parsing[0] {
        SchedulingAction::AnnounceFailure(n) => assert_eq!(
            n.reason,
            SessionTerminationReason::StartupFailed(BlackboxError { message: "capabilities parsing failed".into() })
        ),
        other => panic!("unexpected {:?}", other),
    }
    assert_eq!(
        scheduling_actions(&created, Err(SchedulingServiceError::RequestFailure("timeout".into()))),
        vec![SchedulingAction::Fail("timeout".into())]
    );
    assert_eq!(SchedulingServiceError::NoProvisioner.describe(), "no provisioner answered the matching request");
    assert_eq!(SchedulingServiceError::PublishFailure("x".into()).describe(), "notification publishing failed");
    assert_eq!(SchedulingServiceError::RequestFailure("x".into()).describe(), "matching request failed");
}

#[test]
fn identifier_text_parses_back() {
    for v in [0u128, 1, u128::MAX, 0x0123_4567_89ab_cdef_0123_4567_89ab_cdef] {
        let id = SessionIdentifier(v);
        assert_eq!(SessionIdentifier::parse(&id.to_hyphenated_string()), Some(id));
    }
}
