//! Lifecycle rules of a module: the heart that keeps it alive and the phases it runs through.
//!
//! Time is handed in by the caller as milliseconds on a monotonic clock.

use vstd::prelude::*;
use vstd::string::*;
use core::time::Duration;
use crate::webdriver::instance::seconds;

verus! {

/// Reason why the heart stopped beating
#[derive(Debug, Clone, PartialEq, Eq)]
pub enum DeathReason {
    /// Internal kill signal has been sent
    Killed(String),
    /// Predetermined lifetime has been exceeded
    LifetimeExceeded,
    /// SIGINT or other process-external cause
    Terminated,
}

/// Action to a heart
#[derive(Debug, Clone, PartialEq, Eq)]
pub enum HeartInteraction {
    /// Kill it for the given reason
    Kill(String),
    /// Reset its lifetime to the original value
    Rejuvenate,
}

/// Something that happened while the heart was beating.
#[derive(Debug, Clone, PartialEq, Eq)]
pub enum HeartEvent {
    /// An interaction arrived from a heart stone.
    Interaction(HeartInteraction),
    /// All heart stones are gone; nothing more will arrive from them.
    StonesDropped,
    /// The clock was read (for instance after waiting for the lifetime to pass).
    ClockTick,
    /// The process received a termination signal (SIGTERM or Ctrl+C).
    TerminationSignal,
}

/// Lifetime bookkeeping of a heart: when the current period began and how long it may last.
#[derive(Debug, Clone, Copy, PartialEq, Eq, Structural)]
pub struct HeartClock {
    /// Point in time when the lifetime was last reset (milliseconds; may lie before the
    /// clock's origin after a reduction)
    pub lifetime_start: i128,
    /// Maximum lifetime duration in milliseconds, `None` for an unlimited lifetime
    pub lifetime: Option<u64>,
}

/// Outcome of handing an event to the heart.
#[derive(Debug, Clone, PartialEq, Eq)]
pub enum HeartStep {
    /// Still beating, with the updated clock
    Beating(HeartClock),
    /// Stopped beating for the given reason
    Died(DeathReason),
}

/// Bound on instants handed to the heart, so that all arithmetic stays exact.
pub open spec fn time_bound() -> int {
    0x1_0000_0000_0000_0000
}

impl HeartClock {
    /// The clock stays within the range that its arithmetic is exact for.
    pub open spec fn wf(&self) -> bool {
        -2 * time_bound() < self.lifetime_start < 2 * time_bound()
    }

    /// The lifetime has run out at `now`: more time than the lifetime has passed since the start.
    pub open spec fn expired_at(&self, now: u64) -> bool {
        match self.lifetime {
            Some(l) => now - self.lifetime_start > l,
            None => false,
        }
    }

    /// The heart's response to an event at `now`.
    pub open spec fn spec_step(&self, event: HeartEvent, now: u64) -> HeartStep {
        match event {
            HeartEvent::Interaction(HeartInteraction::Kill(reason)) => HeartStep::Died(DeathReason::Killed(reason)),
            HeartEvent::Interaction(HeartInteraction::Rejuvenate) => HeartStep::Beating(
                HeartClock { lifetime_start: now as i128, lifetime: self.lifetime },
            ),
            HeartEvent::StonesDropped => HeartStep::Beating(*self),
            HeartEvent::ClockTick => if self.expired_at(now) {
                HeartStep::Died(DeathReason::LifetimeExceeded)
            } else {
                HeartStep::Beating(*self)
            },
            HeartEvent::TerminationSignal => HeartStep::Died(DeathReason::Terminated),
        }
    }

    /// A new clock whose period starts at `now`.
    pub fn new(lifetime: Option<u64>, now: u64) -> (r: HeartClock)
        ensures
            r.wf(),
            r.lifetime == lifetime,
            r.lifetime_start == now,
    {
        HeartClock { lifetime_start: now as i128, lifetime }
    }

    /// Handles one event: a kill or a termination signal stops the heart, a rejuvenation
    /// restarts the lifetime at `now`, a clock reading stops it once the lifetime is exceeded.
    pub fn step(&self, event: HeartEvent, now: u64) -> (r: HeartStep)
        requires
            self.wf(),
        ensures
            r == self.spec_step(event, now),
            r matches HeartStep::Beating(c) ==> c.wf(),
    {
        match event {
            HeartEvent::Interaction(HeartInteraction::Kill(reason)) => HeartStep::Died(DeathReason::Killed(reason)),
            HeartEvent::Interaction(HeartInteraction::Rejuvenate) => HeartStep::Beating(
                HeartClock { lifetime_start: now as i128, lifetime: self.lifetime },
            ),
            HeartEvent::StonesDropped => HeartStep::Beating(*self),
            HeartEvent::ClockTick => {
                if self.has_expired(now) {
                    HeartStep::Died(DeathReason::LifetimeExceeded)
                } else {
                    HeartStep::Beating(*self)
                }
            },
            HeartEvent::TerminationSignal => HeartStep::Died(DeathReason::Terminated),
        }
    }

    /// Whether the lifetime has run out at `now`.
    pub fn has_expired(&self, now: u64) -> (r: bool)
        requires
            self.wf(),
        ensures
            r == self.expired_at(now),
    {
        match self.lifetime {
            Some(l) => (now as i128) - self.lifetime_start > (l as i128),
            None => false,
        }
    }

    /// Milliseconds left at `now` until the lifetime runs out (`None` without a lifetime,
    /// zero once it has run out).
    pub fn remaining(&self, now: u64) -> (r: Option<u64>)
        requires
            self.wf(),
        ensures
            match self.lifetime {
                None => r is None,
                Some(l) => r == Some(if now - self.lifetime_start >= l { 0u64 } else {
                    (l - (now - self.lifetime_start)) as u64
                }),
            },
    {
        match self.lifetime {
            Some(l) => {
                let elapsed = (now as i128) - self.lifetime_start;
                if elapsed >= l as i128 {
                    Some(0)
                } else {
                    Some(((l as i128) - elapsed) as u64)
                }
            },
            None => None,
        }
    }

    /// Shifts the start of the current period so that the lifetime runs out `new_lifetime`
    /// milliseconds after `now`; without a lifetime nothing changes.
    pub fn reduce_next_lifetime(&mut self, new_lifetime: u64, now: u64)
        requires
            old(self).wf(),
        ensures
            final(self).wf(),
            final(self).lifetime == old(self).lifetime,
            match old(self).lifetime {
                Some(l) => final(self).lifetime_start == now - l + new_lifetime,
                None => final(self).lifetime_start == old(self).lifetime_start,
            },
    {
        match self.lifetime {
            Some(l) => {
                self.lifetime_start = (now as i128) - (l as i128) + (new_lifetime as i128);
            },
            None => {},
        }
    }
}

/// A kill through a heart stone always stops the heart, with the given reason.
pub proof fn law_kill_stops_heart(clock: HeartClock, reason: String, now: u64)
    ensures
        clock.spec_step(HeartEvent::Interaction(HeartInteraction::Kill(reason)), now)
            == HeartStep::Died(DeathReason::Killed(reason)),
{
}

/// A heart without a lifetime never dies of age, and stays as it is on a clock reading.
pub proof fn law_unlimited_heart_never_expires(clock: HeartClock, now: u64)
    requires
        clock.lifetime is None,
    ensures
        clock.spec_step(HeartEvent::ClockTick, now) == HeartStep::Beating(clock),
{
}

/// After a rejuvenation at `t0`, clock readings up to a full lifetime later keep the heart
/// beating, and any later reading stops it.
pub proof fn law_rejuvenation_restarts_lifetime(clock: HeartClock, t0: u64, t1: u64, l: u64)
    requires
        clock.lifetime == Some(l),
        t0 <= t1,
    ensures
        clock.spec_step(HeartEvent::Interaction(HeartInteraction::Rejuvenate), t0) matches HeartStep::Beating(c)
            && (c.spec_step(HeartEvent::ClockTick, t1) is Died <==> t1 - t0 > l),
{
}

/// After the lifetime is reduced at `t0` to `new_lifetime`, a clock reading at `t1` stops
/// the heart exactly when more than `new_lifetime` has passed since `t0`.
pub proof fn law_reduced_lifetime(clock: HeartClock, new_lifetime: u64, t0: u64, t1: u64, l: u64)
    requires
        clock.lifetime == Some(l),
    ensures
        ({
            let reduced = HeartClock { lifetime_start: (t0 - l + new_lifetime) as i128, lifetime: Some(l) };
            reduced.spec_step(HeartEvent::ClockTick, t1) == if t1 - t0 > new_lifetime {
                HeartStep::Died(DeathReason::LifetimeExceeded)
            } else {
                HeartStep::Beating(reduced)
            }
        }),
{
}

/// Dropping all heart stones never changes the heart, with or without a lifetime: it keeps
/// beating with the same clock.
pub proof fn law_dropped_stones_keep_heart(clock: HeartClock, now: u64)
    ensures
        clock.spec_step(HeartEvent::StonesDropped, now) == HeartStep::Beating(clock),
{
}

/// Only a kill, a termination signal or an exceeded lifetime stop a heart; with the reason
/// of the kill, `Terminated` for a signal and `LifetimeExceeded` for the lifetime.
pub proof fn law_heart_dies_only_for_its_reasons(clock: HeartClock, event: HeartEvent, now: u64)
    ensures
        clock.spec_step(event, now) matches HeartStep::Died(reason) ==> match event {
            HeartEvent::Interaction(HeartInteraction::Kill(why)) => reason == DeathReason::Killed(why),
            HeartEvent::TerminationSignal => reason == DeathReason::Terminated,
            HeartEvent::ClockTick => reason == DeathReason::LifetimeExceeded && clock.lifetime is Some
                && now - clock.lifetime_start > clock.lifetime->0,
            _ => false,
        },
{
}

/// A termination signal stops the heart whatever its state.
pub proof fn law_termination_signal_stops_heart(clock: HeartClock, now: u64)
    ensures
        clock.spec_step(HeartEvent::TerminationSignal, now) == HeartStep::Died(DeathReason::Terminated),
{
}

impl DeathReason {
    /// Human readable description of the reason.
    pub fn describe(&self) -> (r: String)
        ensures
            r@ == match self {
                DeathReason::Killed(reason) => "Killed ("@ + reason@ + ")"@,
                DeathReason::LifetimeExceeded => "Lifetime was exceeded"@,
                DeathReason::Terminated => "Terminated due to external signal"@,
            },
    {
        match self {
            DeathReason::Killed(reason) => {
                let mut r = String::from_str("Killed (");
                r.append(reason.as_str());
                r.append(")");
                r
            },
            DeathReason::LifetimeExceeded => String::from_str("Lifetime was exceeded"),
            DeathReason::Terminated => String::from_str("Terminated due to external signal"),
        }
    }
}

// ------------------------------------------------------------------ module lifecycle

/// Reason why a module has terminated
#[derive(Debug, Clone, PartialEq, Eq)]
pub enum ModuleTerminationReason {
    /// Startup routine threw an error (with its description)
    StartupFailed(String),
    /// Core run loop threw an error (with its description)
    OperationalError(String),
    /// Heart provided by module died
    HeartDied(DeathReason),
    /// Run loop exited cleanly
    ExitedNormally,
    /// Timeout during startup or shutdown
    Timeout,
}

/// How the startup routine of a module ended.
#[derive(Debug, Clone, PartialEq, Eq)]
pub enum StartupOutcome {
    /// Completed without error
    Completed,
    /// Failed with the described error
    Failed(String),
    /// Did not complete within the startup timeout
    TimedOut,
}

/// How the run procedure of a module ended.
#[derive(Debug, Clone, PartialEq, Eq)]
pub enum RunOutcome {
    /// Returned without handing over a heart
    Finished,
    /// Returned a heart whose death ends the module
    HeartHandedOver,
    /// Failed with the described error
    Failed(String),
}

/// Phase of a running module.
#[derive(Debug, Clone, PartialEq, Eq)]
pub enum ModulePhase {
    /// The startup routine is running
    Starting,
    /// The run procedure is running
    Running,
    /// The heart returned by the run procedure is beating
    AwaitingHeart,
    /// Remaining jobs are terminated and the shutdown hook runs with the reason
    ShuttingDown(ModuleTerminationReason),
}

/// What happened in the current phase.
#[derive(Debug, Clone, PartialEq, Eq)]
pub enum ModuleEvent {
    /// The startup routine ended
    Startup(StartupOutcome),
    /// The run procedure ended
    Run(RunOutcome),
    /// The heart died
    HeartDied(DeathReason),
}

/// Next phase of a module: a completed startup leads to the run procedure, a failed or
/// timed out one straight to shutdown; a run that hands over a heart waits for its death;
/// every other end of a phase leads to shutdown with the matching reason. Events that do
/// not belong to the phase leave it unchanged.
pub open spec fn spec_advance(phase: ModulePhase, event: ModuleEvent) -> ModulePhase {
    match (phase, event) {
        (ModulePhase::Starting, ModuleEvent::Startup(StartupOutcome::Completed)) => ModulePhase::Running,
        (ModulePhase::Starting, ModuleEvent::Startup(StartupOutcome::Failed(e))) => ModulePhase::ShuttingDown(
            ModuleTerminationReason::StartupFailed(e),
        ),
        (ModulePhase::Starting, ModuleEvent::Startup(StartupOutcome::TimedOut)) => ModulePhase::ShuttingDown(
            ModuleTerminationReason::Timeout,
        ),
        (ModulePhase::Running, ModuleEvent::Run(RunOutcome::Finished)) => ModulePhase::ShuttingDown(
            ModuleTerminationReason::ExitedNormally,
        ),
        (ModulePhase::Running, ModuleEvent::Run(RunOutcome::HeartHandedOver)) => ModulePhase::AwaitingHeart,
        (ModulePhase::Running, ModuleEvent::Run(RunOutcome::Failed(e))) => ModulePhase::ShuttingDown(
            ModuleTerminationReason::OperationalError(e),
        ),
        (ModulePhase::AwaitingHeart, ModuleEvent::HeartDied(reason)) => ModulePhase::ShuttingDown(
            ModuleTerminationReason::HeartDied(reason),
        ),
        (p, _) => p,
    }
}

/// Advances the lifecycle of a module by one event.
pub fn advance(phase: ModulePhase, event: ModuleEvent) -> (r: ModulePhase)
    ensures
        r == spec_advance(phase, event),
{
    match (phase, event) {
        (ModulePhase::Starting, ModuleEvent::Startup(StartupOutcome::Completed)) => ModulePhase::Running,
        (ModulePhase::Starting, ModuleEvent::Startup(StartupOutcome::Failed(e))) => ModulePhase::ShuttingDown(
            ModuleTerminationReason::StartupFailed(e),
        ),
        (ModulePhase::Starting, ModuleEvent::Startup(StartupOutcome::TimedOut)) => ModulePhase::ShuttingDown(
            ModuleTerminationReason::Timeout,
        ),
        (ModulePhase::Running, ModuleEvent::Run(RunOutcome::Finished)) => ModulePhase::ShuttingDown(
            ModuleTerminationReason::ExitedNormally,
        ),
        (ModulePhase::Running, ModuleEvent::Run(RunOutcome::HeartHandedOver)) => ModulePhase::AwaitingHeart,
        (ModulePhase::Running, ModuleEvent::Run(RunOutcome::Failed(e))) => ModulePhase::ShuttingDown(
            ModuleTerminationReason::OperationalError(e),
        ),
        (ModulePhase::AwaitingHeart, ModuleEvent::HeartDied(reason)) => ModulePhase::ShuttingDown(
            ModuleTerminationReason::HeartDied(reason),
        ),
        (p, _) => p,
    }
}

/// The module ended without an error: its heart died or its run loop exited cleanly.
pub open spec fn spec_exited_cleanly(reason: ModuleTerminationReason) -> bool {
    reason is HeartDied || reason is ExitedNormally
}

/// Whether the shutdown hook reports a normal exit for this reason.
pub fn exited_cleanly(reason: &ModuleTerminationReason) -> (r: bool)
    ensures
        r == spec_exited_cleanly(*reason),
{
    match reason {
        ModuleTerminationReason::HeartDied(_) => true,
        ModuleTerminationReason::ExitedNormally => true,
        _ => false,
    }
}

/// A heart's death while it is awaited ends the module with exactly that death reason,
/// which counts as a clean exit.
pub proof fn law_heart_death_ends_module_cleanly(reason: DeathReason)
    ensures
        spec_advance(ModulePhase::AwaitingHeart, ModuleEvent::HeartDied(reason))
            == ModulePhase::ShuttingDown(ModuleTerminationReason::HeartDied(reason)),
        spec_exited_cleanly(ModuleTerminationReason::HeartDied(reason)),
{
}

/// Once shutting down, no event changes the reason any more.
pub proof fn law_shutdown_is_final(reason: ModuleTerminationReason, event: ModuleEvent)
    ensures
        spec_advance(ModulePhase::ShuttingDown(reason), event) == ModulePhase::ShuttingDown(reason),
{
}

/// A module whose startup does not complete never reaches its run procedure: it shuts down
/// with the startup error or the timeout.
pub proof fn law_failed_startup_skips_run(outcome: StartupOutcome)
    requires
        !(outcome is Completed),
    ensures
        spec_advance(ModulePhase::Starting, ModuleEvent::Startup(outcome)) is ShuttingDown,
        !spec_exited_cleanly(spec_advance(ModulePhase::Starting, ModuleEvent::Startup(outcome))->ShuttingDown_0),
{
}

/// Runner for modules
#[derive(Debug, Clone, Copy)]
pub struct ModuleRunner {
    startup_timeout_secs: u64,
    shutdown_timeout_secs: u64,
    status_server_port: Option<u16>,
}

impl ModuleRunner {
    /// Seconds the startup routine may take.
    pub closed spec fn spec_startup_timeout_secs(&self) -> u64 {
        self.startup_timeout_secs
    }

    /// Seconds the shutdown hook may take.
    pub closed spec fn spec_shutdown_timeout_secs(&self) -> u64 {
        self.shutdown_timeout_secs
    }

    /// Time the startup routine may take.
    pub open spec fn spec_startup_timeout(&self) -> Duration {
        seconds(self.spec_startup_timeout_secs())
    }

    /// Time the shutdown hook may take.
    pub open spec fn spec_shutdown_timeout(&self) -> Duration {
        seconds(self.spec_shutdown_timeout_secs())
    }

    /// Port of the status server, if one is spawned.
    pub closed spec fn spec_status_server_port(&self) -> Option<u16> {
        self.status_server_port
    }

    /// Creates a new instance using default timeouts (60 seconds each) and enabling the
    /// status server
    pub fn new_with_status_server(status_server_port: u16) -> (r: ModuleRunner)
        ensures
            r.spec_status_server_port() == Some(status_server_port),
            r.spec_startup_timeout_secs() == 60,
            r.spec_shutdown_timeout_secs() == 60,
    {
        let d = ModuleRunner::default();
        ModuleRunner { status_server_port: Some(status_server_port), ..d }
    }

    /// Time the startup routine may take.
    pub fn startup_timeout(&self) -> (r: Duration)
        ensures
            r == self.spec_startup_timeout(),
    {
        crate::webdriver::instance::duration_from_secs(self.startup_timeout_secs)
    }

    /// Time the shutdown hook may take.
    pub fn shutdown_timeout(&self) -> (r: Duration)
        ensures
            r == self.spec_shutdown_timeout(),
    {
        crate::webdriver::instance::duration_from_secs(self.shutdown_timeout_secs)
    }

    /// Port of the status server, if one is spawned.
    pub fn status_server_port(&self) -> (r: Option<u16>)
        ensures
            r == self.spec_status_server_port(),
    {
        self.status_server_port
    }
}

impl Default for ModuleRunner {
    /// Default timeouts of 60 seconds each, no status server.
    fn default() -> (r: ModuleRunner)
        ensures
            r.spec_status_server_port() is None,
            r.spec_startup_timeout_secs() == 60,
            r.spec_shutdown_timeout_secs() == 60,
    {
        ModuleRunner { startup_timeout_secs: 60, shutdown_timeout_secs: 60, status_server_port: None }
    }
}

} // verus!
