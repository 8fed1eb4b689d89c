//! Bookkeeping rules of the Kubernetes provisioner: job names, job states and the clean-up
//! of terminated jobs.

use crate::identifier::{SessionIdentifier, uuid_parsed, uuid_text, lemma_uuid_text_len};
use crate::container::{ContainerImage, ContainerImageSet, image_views, selected_image};
use crate::webdriver::capabilities::CapabilitiesRequest;
use vstd::prelude::*;
use vstd::string::*;

verus! {

/// Completion counters of a Kubernetes job (its `status`), as far as they are set.
#[derive(Debug, Clone, Copy, PartialEq, Eq, Structural)]
pub struct JobStatus {
    /// Number of pods that succeeded
    pub succeeded: Option<i32>,
    /// Number of pods that failed
    pub failed: Option<i32>,
}

/// What the provisioner reads of a job: its status and the session id label.
#[derive(Debug, Clone, PartialEq, Eq)]
pub struct JobSummary {
    /// Status of the job, if reported
    pub status: Option<JobStatus>,
    /// Value of the label that holds the session identifier, if present
    pub session_label: Option<String>,
}

/// The job has a pod that succeeded.
pub open spec fn spec_is_successful(status: Option<JobStatus>) -> bool {
    match status {
        Some(s) => match s.succeeded {
            Some(count) => count > 0,
            None => false,
        },
        None => false,
    }
}

/// The job has a pod that failed.
pub open spec fn spec_has_failed(status: Option<JobStatus>) -> bool {
    match status {
        Some(s) => match s.failed {
            Some(count) => count > 0,
            None => false,
        },
        None => false,
    }
}

/// The job neither succeeded nor failed (jobs are expected to have a single pod).
pub open spec fn spec_is_running(status: Option<JobStatus>) -> bool {
    !(spec_is_successful(status) || spec_has_failed(status))
}

impl JobSummary {
    /// The job has a pod that succeeded.
    pub fn is_successful(&self) -> (r: bool)
        ensures
            r == spec_is_successful(self.status),
    {
        match self.status {
            Some(s) => match s.succeeded {
                Some(count) => count > 0,
                None => false,
            },
            None => false,
        }
    }

    /// The job has a pod that failed.
    pub fn has_failed(&self) -> (r: bool)
        ensures
            r == spec_has_failed(self.status),
    {
        match self.status {
            Some(s) => match s.failed {
                Some(count) => count > 0,
                None => false,
            },
            None => false,
        }
    }

    /// The job has neither succeeded nor failed.
    pub fn is_running(&self) -> (r: bool)
        ensures
            r == spec_is_running(self.status),
    {
        !(self.is_successful() || self.has_failed())
    }
}

/// Session of a job: its label parsed as a UUID, if both are there.
pub open spec fn job_session(job: JobSummary) -> Option<SessionIdentifier> {
    match job.session_label {
        Some(label) => match uuid_parsed(label@) {
            Some(v) => Some(SessionIdentifier(v)),
            None => None,
        },
        None => None,
    }
}

/// Sessions of the running jobs, in job order; jobs without a readable label are skipped.
pub open spec fn alive_sessions_of(jobs: Seq<JobSummary>) -> Seq<SessionIdentifier>
    decreases jobs.len(),
{
    if jobs.len() == 0 {
        Seq::empty()
    } else {
        let prev = alive_sessions_of(jobs.drop_last());
        let job = jobs.last();
        if spec_is_running(job.status) && job_session(job) is Some {
            prev.push(job_session(job)->0)
        } else {
            prev
        }
    }
}

/// A job counts as successful only when its status reports a positive succeeded count,
/// and as failed only when it reports a positive failed count; a job whose status reports
/// neither count (or that has no status yet) is running.
pub proof fn law_job_state_needs_counts(status: Option<JobStatus>)
    ensures
        spec_is_successful(status) ==> (status matches Some(s) && s.succeeded matches Some(c) && c > 0),
        spec_has_failed(status) ==> (status matches Some(s) && s.failed matches Some(c) && c > 0),
        (status matches Some(s) && s.succeeded matches Some(c) && c > 0) ==> spec_is_successful(status),
        (status matches Some(s) && s.failed matches Some(c) && c > 0) ==> spec_has_failed(status),
        (status is None || (status->0.succeeded is None && status->0.failed is None)) ==> spec_is_running(status),
{
}

/// The sessions reported alive are exactly those of the running jobs whose label holds a
/// session identifier.
pub proof fn law_alive_sessions_are_running_jobs(jobs: Seq<JobSummary>)
    ensures
        forall|i: int| 0 <= i < jobs.len() && spec_is_running(jobs[i].status) && job_session(#[trigger] jobs[i]) is Some
            ==> alive_sessions_of(jobs).contains(job_session(jobs[i])->0),
        forall|k: int| #![trigger alive_sessions_of(jobs)[k]] 0 <= k < alive_sessions_of(jobs).len() ==> exists|i: int|
            0 <= i < jobs.len() && spec_is_running(jobs[i].status) && #[trigger] job_session(jobs[i])
                == Some(alive_sessions_of(jobs)[k]),
    decreases jobs.len(),
{
    if jobs.len() > 0 {
        let rest = jobs.drop_last();
        law_alive_sessions_are_running_jobs(rest);
        let prev = alive_sessions_of(rest);
        let all = alive_sessions_of(jobs);
        assert forall|i: int| 0 <= i < jobs.len() && spec_is_running(jobs[i].status) && job_session(#[trigger] jobs[i]) is Some
            implies all.contains(job_session(jobs[i])->0) by {
            if i < jobs.len() - 1 {
                assert(rest[i] == jobs[i]);
                let k = choose|k: int| 0 <= k < prev.len() && prev[k] == job_session(rest[i])->0;
                assert(all[k] == prev[k]);
            } else {
                assert(all[all.len() - 1] == job_session(jobs[i])->0);
            }
        }
        assert forall|k: int| #![trigger all[k]] 0 <= k < all.len() implies exists|i: int|
            0 <= i < jobs.len() && spec_is_running(jobs[i].status) && #[trigger] job_session(jobs[i]) == Some(all[k]) by {
            if k < prev.len() {
                assert(all[k] == prev[k]);
                let i = choose|i: int| 0 <= i < rest.len() && spec_is_running(rest[i].status) && #[trigger] job_session(rest[i]) == Some(prev[k]);
                assert(rest[i] == jobs[i]);
            } else {
                let i = jobs.len() - 1;
                assert(jobs[i] == jobs.last());
            }
        }
    }
}

/// Session identifiers of all jobs that have reached neither a failed nor a successful state.
pub fn alive_sessions(jobs: &Vec<JobSummary>) -> (r: Vec<SessionIdentifier>)
    ensures
        r@ == alive_sessions_of(jobs@),
{
    let mut r: Vec<SessionIdentifier> = Vec::new();
    let mut i: usize = 0;
    while i < jobs.len()
        invariant
            i <= jobs@.len(),
            r@ == alive_sessions_of(jobs@.take(i as int)),
        decreases jobs@.len() - i,
    {
        let job = &jobs[i];
        assert(jobs@.take(i + 1).drop_last() =~= jobs@.take(i as int));
        assert(jobs@.take(i + 1).last() == *job);
        if job.is_running() {
            match &job.session_label {
                Some(label) => match SessionIdentifier::parse(label.as_str()) {
                    Some(id) => {
                        r.push(id);
                    },
                    None => {},
                },
                None => {},
            }
        }
        i = i + 1;
    }
    assert(jobs@.take(i as int) =~= jobs@);
    r
}

/// How loudly the number of failed jobs is reported.
#[derive(Debug, Clone, Copy, PartialEq, Eq, Structural)]
pub enum FailedJobAlert {
    /// Nothing to report
    Quiet,
    /// An increasing number of failed jobs
    Warning,
    /// An unreasonably high number of failed jobs, some of which are purged
    Error,
}

/// Clean-up of failed jobs: above 100 of them the oldest are deleted until their count is
/// below 50, so 49 remain (reported as an error); above 10 they are only reported as a
/// warning.
pub open spec fn spec_failed_job_purge(failed: nat) -> (nat, FailedJobAlert) {
    if failed > 100 {
        ((failed - 49) as nat, FailedJobAlert::Error)
    } else if failed > 10 {
        (0, FailedJobAlert::Warning)
    } else {
        (0, FailedJobAlert::Quiet)
    }
}

/// Number of failed jobs to delete (the first ones listed) and how to report them.
pub fn failed_job_purge(failed: usize) -> (r: (usize, FailedJobAlert))
    ensures
        (r.0 as nat, r.1) == spec_failed_job_purge(failed as nat),
{
    if failed > 100 {
        (failed - 49, FailedJobAlert::Error)
    } else if failed > 10 {
        (0, FailedJobAlert::Warning)
    } else {
        (0, FailedJobAlert::Quiet)
    }
}

/// After a purge fewer than 50 failed jobs remain whenever more than 100 had accumulated,
/// and no job is deleted otherwise.
pub proof fn law_failed_jobs_bounded(failed: nat)
    ensures
        failed > 100 ==> failed - spec_failed_job_purge(failed).0 < 50,
        failed <= 100 ==> spec_failed_job_purge(failed).0 == 0,
{
}

/// Name of the job of a session: the resource prefix, `session-` and the first eight
/// characters of the session id.
pub open spec fn spec_job_name(prefix: Seq<char>, session_id: SessionIdentifier) -> Seq<char> {
    prefix + "session-"@ + uuid_text(session_id.0).take(8)
}

/// Generates the name of the job of a session, with the given resource prefix.
pub fn job_name(prefix: &str, session_id: &SessionIdentifier) -> (r: String)
    ensures
        r@ == spec_job_name(prefix@, *session_id),
{
    let text = session_id.to_hyphenated_string();
    proof {
        lemma_uuid_text_len(session_id.0);
    }
    let mut r = String::from_str(prefix);
    r.append("session-");
    r.append(text.as_str().substring_char(0, 8));
    r
}

/// Namespace the jobs live in: the configured one, `webgrid` by default.
pub fn namespace_or_default(configured: Option<String>) -> (r: String)
    ensures
        r@ == match configured {
            Some(n) => n@,
            None => "webgrid"@,
        },
{
    match configured {
        Some(n) => n,
        None => String::from_str("webgrid"),
    }
}


/// Why a job could not be created
#[derive(Debug, Clone, Copy, PartialEq, Eq, Structural)]
pub enum KubernetesProvisionerError {
    /// no matching image found
    NoImageFound,
    /// create kubernetes job failed
    KubernetesError,
    /// job template unreadable
    JobTemplateUnreadable,
    /// invalid job template yml
    JobTemplateInvalid,
    /// invalid capabilities
    InvalidCapabilities,
}

/// Image a job is created with: the image selected for the parsed capabilities request
/// (`None`: the raw request could not be parsed, refused as `InvalidCapabilities`), or
/// `NoImageFound` where no image is selected.
pub fn job_image(images: &ContainerImageSet, request: Option<CapabilitiesRequest>) -> (r: Result<&ContainerImage, KubernetesProvisionerError>)
    ensures
        match request {
            None => r == Err::<&ContainerImage, KubernetesProvisionerError>(KubernetesProvisionerError::InvalidCapabilities),
            Some(req) => match selected_image(image_views(images.0@), req@) {
                Some(i) => r matches Ok(img) && 0 <= i < images.0@.len() && *img == images.0@[i],
                None => r == Err::<&ContainerImage, KubernetesProvisionerError>(KubernetesProvisionerError::NoImageFound),
            },
        },
{
    match request {
        None => Err(KubernetesProvisionerError::InvalidCapabilities),
        Some(req) => match images.match_against_capabilities(req) {
            Some(img) => Ok(img),
            None => Err(KubernetesProvisionerError::NoImageFound),
        },
    }
}

/// The variables filled into the job template, in this order: `job_name`, `session_id`
/// (hyphenated), `image_name`, `provisioner_instance` and `capabilities` (the raw request).
pub fn job_template_variables(
    job_name: &str,
    session_id: &SessionIdentifier,
    image: &ContainerImage,
    instance: &str,
    raw_capabilities: &str,
) -> (r: Vec<(&'static str, String)>)
    ensures
        r@.len() == 5,
        r@[0].0@ == "job_name"@ && r@[0].1@ == job_name@,
        r@[1].0@ == "session_id"@ && r@[1].1@ == uuid_text(session_id.0),
        r@[2].0@ == "image_name"@ && r@[2].1@ == image.identifier@,
        r@[3].0@ == "provisioner_instance"@ && r@[3].1@ == instance@,
        r@[4].0@ == "capabilities"@ && r@[4].1@ == raw_capabilities@,
{
    let mut r: Vec<(&'static str, String)> = Vec::new();
    r.push(("job_name", String::from_str(job_name)));
    r.push(("session_id", session_id.to_hyphenated_string()));
    r.push(("image_name", image.identifier.clone()));
    r.push(("provisioner_instance", String::from_str(instance)));
    r.push(("capabilities", String::from_str(raw_capabilities)));
    r
}

} // verus!
