use webgrid::events::{
    BlackboxError, ProvisioningJobAssignedNotification, SessionCreatedNotification, SessionOperationalNotification,
    SessionProvisionedNotification, SessionScheduledNotification, SessionStartupFailedNotification,
    SessionTerminatedNotification, SessionTerminationReason,
};
use webgrid::harness::{
    advance, exited_cleanly, DeathReason, HeartClock, HeartEvent, HeartInteraction, HeartStep, ModuleEvent,
    ModulePhase, ModuleRunner, ModuleTerminationReason, RunOutcome, StartupOutcome,
};
use webgrid::identifier::SessionIdentifier;
use webgrid::requests::{ProvisionerMatchRequest, StorageReadRequest, StorageWriteRequest};
use webgrid::webdriver::capabilities::CapabilitiesRequest;

#[test]
fn heart_dies_when_killed() {
    let clock = HeartClock::new(None, 0);
    let step = clock.step(HeartEvent::Interaction(HeartInteraction::Kill("Testing".into())), 5);
    assert_eq!(step, HeartStep::Died(DeathReason::Killed("Testing".into())));
}

#[test]
fn heart_lives_without_lifetime() {
    let clock = HeartClock::new(None, 0);
    assert_eq!(clock.step(HeartEvent::ClockTick, 100), HeartStep::Beating(clock));
    assert_eq!(clock.step(HeartEvent::ClockTick, u64::MAX), HeartStep::Beating(clock));
    assert_eq!(clock.remaining(100), None);
}

#[test]
fn heart_dies_after_lifetime() {
    let clock = HeartClock::new(Some(10), 0);
    assert_eq!(clock.step(HeartEvent::ClockTick, 10), HeartStep::Beating(clock));
    assert_eq!(clock.step(HeartEvent::ClockTick, 11), HeartStep::Died(DeathReason::LifetimeExceeded));
    assert_eq!(clock.remaining(4), Some(6));
    assert_eq!(clock.remaining(30), Some(0));
}

#[test]
fn heart_reduced_lifetime_ends_earlier() {
    let mut reduced = HeartClock::new(Some(500), 0);
    let full = HeartClock::new(Some(500), 0);
    reduced.reduce_next_lifetime(100, 0);
    assert_eq!(reduced.lifetime_start, -400);
    assert_eq!(full.step(HeartEvent::ClockTick, 101), HeartStep::Beating(full));
    assert_eq!(reduced.step(HeartEvent::ClockTick, 101), HeartStep::Died(DeathReason::LifetimeExceeded));
    assert_eq!(reduced.remaining(40), Some(60));
}

#[test]
fn heart_reduction_without_lifetime_changes_nothing() {
    let mut clock = HeartClock::new(None, 7);
    clock.reduce_next_lifetime(100, 50);
    assert_eq!(clock, HeartClock::new(None, 7));
}

#[test]
fn heart_rejuvenation_restarts_lifetime() {
    let clock = HeartClock::new(Some(10), 0);
    let rejuvenated = match clock.step(HeartEvent::Interaction(HeartInteraction::Rejuvenate), 8) {
        HeartStep::Beating(c) => c,
        other => panic!("unexpected {:?}", other),
    };
    assert_eq!(rejuvenated.step(HeartEvent::ClockTick, 15), HeartStep::Beating(rejuvenated));
    assert_eq!(rejuvenated.step(HeartEvent::ClockTick, 19), HeartStep::Died(DeathReason::LifetimeExceeded));
}

#[test]
fn heart_survives_dropped_stones_and_dies_on_signal() {
    let clock = HeartClock::new(Some(10), 0);
    assert_eq!(clock.step(HeartEvent::StonesDropped, 3), HeartStep::Beating(clock));
    assert_eq!(clock.step(HeartEvent::TerminationSignal, 3), HeartStep::Died(DeathReason::Terminated));
}

#[test]
fn death_reason_descriptions() {
    assert_eq!(DeathReason::Killed("bye".into()).describe(), "Killed (bye)");
    assert_eq!(DeathReason::LifetimeExceeded.describe(), "Lifetime was exceeded");
    assert_eq!(DeathReason::Terminated.describe(), "Terminated due to external signal");
}

#[test]
fn module_lifecycle_with_heart() {
    let p = advance(ModulePhase::Starting, ModuleEvent::Startup(StartupOutcome::Completed));
    assert_eq!(p, ModulePhase::Running);
    let p = advance(p, ModuleEvent::Run(RunOutcome::HeartHandedOver));
    assert_eq!(p, ModulePhase::AwaitingHeart);
    let p = advance(p, ModuleEvent::HeartDied(DeathReason::Terminated));
    assert_eq!(p, ModulePhase::ShuttingDown(ModuleTerminationReason::HeartDied(DeathReason::Terminated)));
    let p2 = advance(p.clone(), ModuleEvent::Run(RunOutcome::Failed("late".into())));
    assert_eq!(p2, p);
}

#[test]
fn module_lifecycle_failures() {
    assert_eq!(
        advance(ModulePhase::Starting, ModuleEvent::Startup(StartupOutcome::Failed("boom".into()))),
        ModulePhase::ShuttingDown(ModuleTerminationReason::StartupFailed("boom".into()))
    );
    assert_eq!(
        advance(ModulePhase::Starting, ModuleEvent::Startup(StartupOutcome::TimedOut)),
        ModulePhase::ShuttingDown(ModuleTerminationReason::Timeout)
    );
    assert_eq!(
        advance(ModulePhase::Running, ModuleEvent::Run(RunOutcome::Failed("x".into()))),
        ModulePhase::ShuttingDown(ModuleTerminationReason::OperationalError("x".into()))
    );
    assert_eq!(
        advance(ModulePhase::Running, ModuleEvent::Run(RunOutcome::Finished)),
        ModulePhase::ShuttingDown(ModuleTerminationReason::ExitedNormally)
    );
    assert!(exited_cleanly(&ModuleTerminationReason::ExitedNormally));
    assert!(exited_cleanly(&ModuleTerminationReason::HeartDied(DeathReason::LifetimeExceeded)));
    assert!(!exited_cleanly(&ModuleTerminationReason::Timeout));
    assert!(!exited_cleanly(&ModuleTerminationReason::StartupFailed("e".into())));
}

#[test]
fn module_runner_configuration() {
    let runner = ModuleRunner::new_with_status_server(47002);
    assert_eq!(runner.status_server_port(), Some(47002));
    assert_eq!(runner.startup_timeout(), std::time::Duration::from_secs(60));
    assert_eq!(runner.shutdown_timeout(), std::time::Duration::from_secs(60));
    assert_eq!(ModuleRunner::default().status_server_port(), None);
}

#[test]
fn termination_reason_mapping() {
    assert_eq!(
        SessionTerminationReason::from(ModuleTerminationReason::StartupFailed("a".into())),
        SessionTerminationReason::StartupFailed(BlackboxError { message: "a".into() })
    );
    assert_eq!(
        SessionTerminationReason::from(ModuleTerminationReason::OperationalError("b".into())),
        SessionTerminationReason::StartupFailed(BlackboxError { message: "b".into() })
    );
    assert_eq!(
        SessionTerminationReason::from(ModuleTerminationReason::HeartDied(DeathReason::Killed("c".into()))),
        SessionTerminationReason::ClosedByClient("c".into())
    );
    assert_eq!(
        SessionTerminationReason::from(ModuleTerminationReason::HeartDied(DeathReason::LifetimeExceeded)),
        SessionTerminationReason::IdleTimeoutReached
    );
    assert_eq!(
        SessionTerminationReason::from(ModuleTerminationReason::HeartDied(DeathReason::Terminated)),
        SessionTerminationReason::TerminatedExternally
    );
    assert_eq!(SessionTerminationReason::from(ModuleTerminationReason::Timeout), SessionTerminationReason::ModuleTimeout);
}

#[test]
fn queue_descriptors() {
    assert_eq!(SessionCreatedNotification::queue().key, "session.created");
    assert_eq!(SessionCreatedNotification::queue().size, 5000);
    assert_eq!(SessionStartupFailedNotification::queue().key, "session.failed");
    assert_eq!(SessionOperationalNotification::queue().key, "session.operational");
    assert_eq!(SessionProvisionedNotification::queue().key, "session.provisioned");
    assert_eq!(SessionScheduledNotification::queue().key, "session.scheduled");
    assert_eq!(SessionTerminatedNotification::queue().key, "session.terminated");
    assert_eq!(ProvisioningJobAssignedNotification::queue().key, "provisioner.job.assigned");
    assert_eq!(ProvisioningJobAssignedNotification::queue().size, 10000);
    assert_eq!(ProvisionerMatchRequest::queue().key, "provisioner.match");
    assert_eq!(StorageReadRequest::queue().size, 100);
    assert_eq!(StorageWriteRequest::queue().key, "storage.write");
    assert_eq!(StorageWriteRequest::queue().size, 10000);
}

#[test]
fn requests_get_random_response_locations() {
    let a = ProvisionerMatchRequest::new(CapabilitiesRequest { first_match: None, always_match: None });
    let b = ProvisionerMatchRequest::new(CapabilitiesRequest { first_match: None, always_match: None });
    assert_eq!(a.reply_to().len(), 36);
    assert_ne!(a.reply_to(), b.reply_to());
    let r = StorageReadRequest::new(SessionIdentifier(1), "screen.m3u8".into());
    assert_eq!(r.path, "screen.m3u8");
    assert_eq!(r.reply_to().chars().filter(|c| *c == '-').count(), 4);
    let w = StorageWriteRequest::new(SessionIdentifier(1), "a".into(), "video/mp4".into());
    assert_eq!(w.mime, "video/mp4");
}

#[test]
fn match_requests_compare_only_capabilities() {
    let mut chrome = CapabilitiesRequest { first_match: None, always_match: None };
    let mut caps = webgrid::webdriver::capabilities::Capabilities::empty();
    caps.browser_name = Some("chrome".into());
    chrome.always_match = Some(caps);
    let a = ProvisionerMatchRequest::new(chrome.clone());
    let b = ProvisionerMatchRequest::new(chrome);
    assert_ne!(a.reply_to(), b.reply_to());
    assert!(a == b);
    let c = ProvisionerMatchRequest::new(CapabilitiesRequest { first_match: None, always_match: None });
    assert!(a != c);
}

#[test]
fn startup_failure_notification() {
    let n = SessionTerminatedNotification::new_for_startup_failure(SessionIdentifier(9), BlackboxError { message: "m".into() });
    assert_eq!(n.id, SessionIdentifier(9));
    assert_eq!(n.reason, SessionTerminationReason::StartupFailed(BlackboxError { message: "m".into() }));
}

#[test]
fn response_locations_are_version_four_uuids() {
    for _ in 0..20 {
        let r = ProvisionerMatchRequest::new(CapabilitiesRequest { first_match: None, always_match: None }).reply_to();
        let chars: Vec<char> = r.chars().collect();
        assert_eq!(chars[14], '4');
        assert!(matches!(chars[19], '8' | '9' | 'a' | 'b'));
    }
}
