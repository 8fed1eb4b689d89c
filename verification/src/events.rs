//! Notifications exchanged during the session lifecycle and the queues that carry them.

use crate::harness::{DeathReason, ModuleTerminationReason};
use crate::identifier::SessionIdentifier;
use crate::webdriver::capabilities::RawCapabilitiesRequest;
use vstd::prelude::*;
use vstd::string::*;

verus! {

/// Default queue size for all session startup related events
///
/// It should hold a number of items that equals the maximum reasonable number of sessions
/// a user might burst-create without them being processed.
pub const QUEUE_SIZE_STARTUP_WORKFLOW: usize = 5000;

/// Location and capacity of a notification queue.
#[derive(Debug, Clone, PartialEq, Eq)]
pub struct QueueDescriptor {
    /// Key under which the queue is stored
    pub key: String,
    /// Maximum number of retained items
    pub size: usize,
}

/// Error whose details are only kept as text.
#[derive(Debug, Clone, PartialEq, Eq)]
pub struct BlackboxError {
    /// Description of the error
    pub message: String,
}

/// Unique identifier of a provisioner
pub type ProvisionerIdentifier = String;

/// Provisioner has been assigned a specific job
#[derive(Debug, Clone, PartialEq, Eq)]
pub struct ProvisioningJobAssignedNotification {
    /// Unique identifier of the scheduled session
    pub session_id: SessionIdentifier,
    /// Raw capabilities request JSON string used for scheduling.
    pub capabilities: RawCapabilitiesRequest,
}

/// Session has been created by a client
#[derive(Debug, Clone, PartialEq, Eq)]
pub struct SessionCreatedNotification {
    /// Unique identifier of the created session
    pub id: SessionIdentifier,
    /// Raw capabilities request JSON string provided by the end-user
    pub capabilities: RawCapabilitiesRequest,
}

/// Session failed to reach an operational state
#[derive(Debug, Clone, PartialEq, Eq)]
pub struct SessionStartupFailedNotification {
    /// Unique identifier of the created session
    pub id: SessionIdentifier,
    /// Cause of the startup failure
    pub cause: BlackboxError,
}

/// Session has finished startup
#[derive(Debug, Clone, PartialEq, Eq)]
pub struct SessionOperationalNotification {
    /// Unique identifier of the created session
    pub id: SessionIdentifier,
    /// Raw capabilities JSON string returned by the WebDriver implementation.
    pub actual_capabilities: String,
}

/// Session has been provisioned
#[derive(Debug, Clone, PartialEq, Eq)]
pub struct SessionProvisionedNotification {
    /// Unique identifier of the provisioned session
    pub id: SessionIdentifier,
    /// Additional metadata from the provisioner (key / value pairs)
    pub meta: Vec<(String, String)>,
}

/// Session has been assigned to a provisioner
#[derive(Debug, Clone, PartialEq, Eq)]
pub struct SessionScheduledNotification {
    /// Unique identifier of the scheduled session
    pub id: SessionIdentifier,
    /// Identifier of the provisioner the session has been assigned to
    pub provisioner: ProvisionerIdentifier,
}

/// Reason for a session to commence shutdown
#[derive(Debug, Clone, PartialEq, Eq)]
pub enum SessionTerminationReason {
    /// An error occured during the session startup or job scheduling routine
    StartupFailed(BlackboxError),
    /// Either the startup or shutdown routine timed out
    ModuleTimeout,
    /// Termination was requested by the client
    ClosedByClient(String),
    /// No requests have been received within the idle timeout period
    IdleTimeoutReached,
    /// External process signals terminated the session
    TerminatedExternally,
}

/// Session has terminated and is no longer reachable
#[derive(Debug, Clone, PartialEq, Eq)]
pub struct SessionTerminatedNotification {
    /// Unique identifier of the created session
    pub id: SessionIdentifier,
    /// Reason for the termination
    pub reason: SessionTerminationReason,
}

/// Queue descriptor with the given key text and size.
pub open spec fn is_queue(q: QueueDescriptor, key: Seq<char>, size: usize) -> bool {
    q.key@ == key && q.size == size
}

fn queue(key: &str, size: usize) -> (r: QueueDescriptor)
    ensures
        is_queue(r, key@, size),
{
    QueueDescriptor { key: String::from_str(key), size }
}

impl ProvisioningJobAssignedNotification {
    /// Queue of job assignments; twice the startup queue size, as it holds queued sessions.
    pub fn queue() -> (r: QueueDescriptor)
        ensures
            is_queue(r, "provisioner.job.assigned"@, 10000),
    {
        queue("provisioner.job.assigned", QUEUE_SIZE_STARTUP_WORKFLOW * 2)
    }
}

impl SessionCreatedNotification {
    /// Queue of created sessions
    pub fn queue() -> (r: QueueDescriptor)
        ensures
            is_queue(r, "session.created"@, QUEUE_SIZE_STARTUP_WORKFLOW),
    {
        queue("session.created", QUEUE_SIZE_STARTUP_WORKFLOW)
    }
}

impl SessionStartupFailedNotification {
    /// Queue of failed startups
    pub fn queue() -> (r: QueueDescriptor)
        ensures
            is_queue(r, "session.failed"@, QUEUE_SIZE_STARTUP_WORKFLOW),
    {
        queue("session.failed", QUEUE_SIZE_STARTUP_WORKFLOW)
    }
}

impl SessionOperationalNotification {
    /// Queue of operational sessions
    pub fn queue() -> (r: QueueDescriptor)
        ensures
            is_queue(r, "session.operational"@, QUEUE_SIZE_STARTUP_WORKFLOW),
    {
        queue("session.operational", QUEUE_SIZE_STARTUP_WORKFLOW)
    }
}

impl SessionProvisionedNotification {
    /// Queue of provisioned sessions
    pub fn queue() -> (r: QueueDescriptor)
        ensures
            is_queue(r, "session.provisioned"@, QUEUE_SIZE_STARTUP_WORKFLOW),
    {
        queue("session.provisioned", QUEUE_SIZE_STARTUP_WORKFLOW)
    }
}

impl SessionScheduledNotification {
    /// Queue of scheduled sessions
    pub fn queue() -> (r: QueueDescriptor)
        ensures
            is_queue(r, "session.scheduled"@, QUEUE_SIZE_STARTUP_WORKFLOW),
    {
        queue("session.scheduled", QUEUE_SIZE_STARTUP_WORKFLOW)
    }
}

impl SessionTerminatedNotification {
    /// Queue of terminated sessions
    pub fn queue() -> (r: QueueDescriptor)
        ensures
            is_queue(r, "session.terminated"@, QUEUE_SIZE_STARTUP_WORKFLOW),
    {
        queue("session.terminated", QUEUE_SIZE_STARTUP_WORKFLOW)
    }

    /// Notification for a session whose startup failed with the given cause.
    pub fn new_for_startup_failure(id: SessionIdentifier, cause: BlackboxError) -> (r: SessionTerminatedNotification)
        ensures
            r == (SessionTerminatedNotification { id, reason: SessionTerminationReason::StartupFailed(cause) }),
    {
        SessionTerminatedNotification { id, reason: SessionTerminationReason::StartupFailed(cause) }
    }
}

/// Termination reason of a session whose module terminated for `reason` (a module that
/// exited normally has no such reason).
pub open spec fn spec_termination_reason(reason: ModuleTerminationReason) -> SessionTerminationReason
    recommends
        !(reason is ExitedNormally),
{
    match reason {
        ModuleTerminationReason::StartupFailed(e) => SessionTerminationReason::StartupFailed(BlackboxError { message: e }),
        ModuleTerminationReason::OperationalError(e) => SessionTerminationReason::StartupFailed(BlackboxError { message: e }),
        ModuleTerminationReason::HeartDied(DeathReason::Killed(d)) => SessionTerminationReason::ClosedByClient(d),
        ModuleTerminationReason::HeartDied(DeathReason::LifetimeExceeded) => SessionTerminationReason::IdleTimeoutReached,
        ModuleTerminationReason::HeartDied(DeathReason::Terminated) => SessionTerminationReason::TerminatedExternally,
        ModuleTerminationReason::Timeout => SessionTerminationReason::ModuleTimeout,
        ModuleTerminationReason::ExitedNormally => SessionTerminationReason::ModuleTimeout,
    }
}

impl SessionTerminationReason {
    /// Translates the reason a module terminated into the reason its session terminated:
    /// errors become startup failures, a heart killed by the client a closure by the client,
    /// an exceeded lifetime an idle timeout and a signal an external termination.
    pub fn from(reason: ModuleTerminationReason) -> (r: SessionTerminationReason)
        requires
            !(reason is ExitedNormally),
        ensures
            r == spec_termination_reason(reason),
    {
        match reason {
            ModuleTerminationReason::StartupFailed(e) => SessionTerminationReason::StartupFailed(BlackboxError { message: e }),
            ModuleTerminationReason::OperationalError(e) => SessionTerminationReason::StartupFailed(BlackboxError { message: e }),
            ModuleTerminationReason::HeartDied(DeathReason::Killed(d)) => SessionTerminationReason::ClosedByClient(d),
            ModuleTerminationReason::HeartDied(DeathReason::LifetimeExceeded) => SessionTerminationReason::IdleTimeoutReached,
            ModuleTerminationReason::HeartDied(DeathReason::Terminated) => SessionTerminationReason::TerminatedExternally,
            ModuleTerminationReason::Timeout => SessionTerminationReason::ModuleTimeout,
            ModuleTerminationReason::ExitedNormally => vstd::pervasive::unreached(),
        }
    }
}

} // verus!
