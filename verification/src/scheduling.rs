//! Decisions of the scheduling service, which assigns newly created sessions to provisioners.

use crate::events::{
    BlackboxError, ProvisioningJobAssignedNotification, SessionCreatedNotification,
    SessionScheduledNotification, SessionTerminatedNotification, SessionTerminationReason,
};
use crate::identifier::SessionIdentifier;
use crate::requests::ProvisionerMatchResponse;
use crate::webdriver::capabilities::{
    Capabilities, CapabilitiesView, capability_views, copy_text_pairs, text_pairs, texts,
};
use vstd::prelude::*;
use vstd::string::*;

verus! {

broadcast use vstd::seq_lib::group_to_multiset_ensures;

/// Errors of the scheduling of one session
#[derive(Debug, Clone, PartialEq, Eq)]
pub enum SchedulingServiceError {
    /// capabilities parsing failed (with the parser's description)
    ParsingFailed(String),
    /// no provisioner answered the matching request
    NoProvisioner,
    /// matching request failed (with its description)
    RequestFailure(String),
    /// notification publishing failed (with its description)
    PublishFailure(String),
    /// required metadata fields were not provided (the missing keys, comma separated)
    MissingMandatoryMetadata(String),
}

/// Client metadata of a session has been modified
#[derive(Debug, Clone, PartialEq, Eq)]
pub struct SessionMetadataModifiedNotification {
    /// Unique identifier of the session
    pub id: SessionIdentifier,
    /// Metadata key / value pairs
    pub metadata: Vec<(String, String)>,
}

/// What the metadata check decides for a session.
#[derive(Debug, Clone, PartialEq, Eq)]
pub enum MetadataVerdict {
    /// Metadata was given and holds every required key: it is published
    Publish(Vec<(String, String)>),
    /// No metadata was given and none is required
    NothingToPublish,
    /// Required keys are missing (comma separated)
    Missing(String),
}

// ------------------------------------------------------------------ rules

/// Metadata of a capability set: that of its WebGrid options, if both are present.
pub open spec fn set_metadata(c: CapabilitiesView) -> Option<Seq<(Seq<char>, Seq<char>)>> {
    match c.webgrid_options {
        Some(o) => o.metadata,
        None => None,
    }
}

/// Metadata of the first capability set that carries some.
pub open spec fn first_metadata(sets: Seq<CapabilitiesView>) -> Option<Seq<(Seq<char>, Seq<char>)>>
    decreases sets.len(),
{
    if sets.len() == 0 {
        None
    } else {
        match set_metadata(sets[0]) {
            Some(m) => Some(m),
            None => first_metadata(sets.drop_first()),
        }
    }
}

/// `key` is one of the keys of `metadata`.
pub open spec fn has_key(metadata: Seq<(Seq<char>, Seq<char>)>, key: Seq<char>) -> bool {
    exists|i: int| 0 <= i < metadata.len() && #[trigger] metadata[i].0 == key
}

/// The required keys (in their order) that `metadata` lacks.
pub open spec fn missing_keys(required: Seq<Seq<char>>, metadata: Seq<(Seq<char>, Seq<char>)>) -> Seq<Seq<char>>
    decreases required.len(),
{
    if required.len() == 0 {
        Seq::empty()
    } else {
        let prev = missing_keys(required.drop_last(), metadata);
        if has_key(metadata, required.last()) {
            prev
        } else {
            prev.push(required.last())
        }
    }
}

/// The texts of `list` joined by `sep`.
pub open spec fn join(list: Seq<Seq<char>>, sep: Seq<char>) -> Seq<char>
    decreases list.len(),
{
    if list.len() == 0 {
        Seq::empty()
    } else if list.len() == 1 {
        list[0]
    } else {
        join(list.drop_last(), sep) + sep + list.last()
    }
}

pub enum MetadataVerdictView {
    Publish(Seq<(Seq<char>, Seq<char>)>),
    NothingToPublish,
    Missing(Seq<char>),
}

impl View for MetadataVerdict {
    type V = MetadataVerdictView;

    open spec fn view(&self) -> MetadataVerdictView {
        match self {
            MetadataVerdict::Publish(m) => MetadataVerdictView::Publish(text_pairs(m@)),
            MetadataVerdict::NothingToPublish => MetadataVerdictView::NothingToPublish,
            MetadataVerdict::Missing(k) => MetadataVerdictView::Missing(k@),
        }
    }
}

/// The metadata rule: metadata given in the first capability set that has some is
/// published unless required keys are missing from it; without any metadata, a non-empty
/// list of required keys is missing as a whole.
pub open spec fn spec_metadata_verdict(sets: Seq<CapabilitiesView>, required: Seq<Seq<char>>) -> MetadataVerdictView {
    match first_metadata(sets) {
        Some(m) => {
            let missing = missing_keys(required, m);
            if missing.len() > 0 {
                MetadataVerdictView::Missing(join(missing, seq![',']))
            } else {
                MetadataVerdictView::Publish(m)
            }
        },
        None => if required.len() > 0 {
            MetadataVerdictView::Missing(join(required, seq![',']))
        } else {
            MetadataVerdictView::NothingToPublish
        },
    }
}

// ------------------------------------------------------------------ executable code

/// Whether `key` is one of the keys of `metadata`.
pub fn metadata_has_key(metadata: &Vec<(String, String)>, key: &String) -> (r: bool)
    ensures
        r == has_key(text_pairs(metadata@), key@),
{
    let ghost m = text_pairs(metadata@);
    let mut i: usize = 0;
    while i < metadata.len()
        invariant
            i <= metadata@.len(),
            m == text_pairs(metadata@),
            forall|j: int| 0 <= j < i ==> m[j].0 != key@,
        decreases metadata@.len() - i,
    {
        if metadata[i].0.eq(key) {
            assert(m[i as int].0 == key@);
            return true;
        }
        i = i + 1;
    }
    false
}

/// Joins texts with a separator.
pub fn join_texts(list: &Vec<String>, sep: &str) -> (r: String)
    ensures
        r@ == join(texts(list@), sep@),
{
    let mut r = String::new();
    let ghost all = texts(list@);
    let mut i: usize = 0;
    while i < list.len()
        invariant
            i <= list@.len(),
            all == texts(list@),
            r@ == join(all.take(i as int), sep@),
        decreases list@.len() - i,
    {
        if i != 0 {
            r.append(sep);
        }
        r.append(list[i].as_str());
        assert(all.take(i + 1).drop_last() =~= all.take(i as int));
        i = i + 1;
    }
    assert(all.take(i as int) =~= all);
    r
}

/// Metadata of the first capability set that carries some.
pub fn find_metadata(sets: &Vec<Capabilities>) -> (r: Option<Vec<(String, String)>>)
    ensures
        match r {
            Some(m) => first_metadata(capability_views(sets@)) == Some(text_pairs(m@)),
            None => first_metadata(capability_views(sets@)) is None,
        },
{
    let ghost all = capability_views(sets@);
    let mut k: usize = 0;
    assert(all.skip(0) =~= all);
    while k < sets.len()
        invariant
            k <= sets@.len(),
            all == capability_views(sets@),
            first_metadata(all) == first_metadata(all.skip(k as int)),
        decreases sets@.len() - k,
    {
        assert(all.skip(k as int)[0] == sets@[k as int]@);
        match &sets[k].webgrid_options {
            Some(o) => match &o.metadata {
                Some(m) => {
                    return Some(copy_text_pairs(m));
                },
                None => {},
            },
            None => {},
        }
        assert(all.skip(k as int).drop_first() =~= all.skip(k + 1));
        k = k + 1;
    }
    None
}

/// Required keys (in the given order) that `metadata` lacks.
pub fn find_missing_keys(required: &Vec<String>, metadata: &Vec<(String, String)>) -> (r: Vec<String>)
    ensures
        texts(r@) == missing_keys(texts(required@), text_pairs(metadata@)),
{
    let ghost req = texts(required@);
    let ghost m = text_pairs(metadata@);
    let mut r: Vec<String> = Vec::new();
    let mut i: usize = 0;
    while i < required.len()
        invariant
            i <= required@.len(),
            req == texts(required@),
            m == text_pairs(metadata@),
            texts(r@) == missing_keys(req.take(i as int), m),
        decreases required@.len() - i,
    {
        let ghost prev = texts(r@);
        assert(req.take(i + 1).drop_last() =~= req.take(i as int));
        if !metadata_has_key(metadata, &required[i]) {
            r.push(required[i].clone());
            assert(texts(r@) =~= prev.push(req[i as int]));
        }
        i = i + 1;
    }
    assert(req.take(i as int) =~= req);
    r
}

/// Applies the metadata rule to the capability sets of a request; `required` lists the
/// required keys (a set: no key twice) in the order in which they are reported.
pub fn metadata_verdict(sets: &Vec<Capabilities>, required: &Vec<String>) -> (r: MetadataVerdict)
    requires
        texts(required@).no_duplicates(),
    ensures
        r@ == spec_metadata_verdict(capability_views(sets@), texts(required@)),
{
    proof {
        reveal_strlit(",");
    }
    assert(","@ =~= seq![',']);
    match find_metadata(sets) {
        Some(m) => {
            let missing = find_missing_keys(required, &m);
            if missing.len() > 0 {
                MetadataVerdict::Missing(join_texts(&missing, ","))
            } else {
                MetadataVerdict::Publish(m)
            }
        },
        None => {
            if required.len() > 0 {
                MetadataVerdict::Missing(join_texts(required, ","))
            } else {
                MetadataVerdict::NothingToPublish
            }
        },
    }
}

/// Metadata holds every required key exactly when none is missing.
pub proof fn lemma_missing_keys_empty(required: Seq<Seq<char>>, metadata: Seq<(Seq<char>, Seq<char>)>)
    ensures
        (missing_keys(required, metadata).len() == 0) <==> (forall|i: int| 0 <= i < required.len() ==> has_key(metadata, #[trigger] required[i])),
    decreases required.len(),
{
    if required.len() > 0 {
        lemma_missing_keys_empty(required.drop_last(), metadata);
        lemma_missing_keys_grow(required.drop_last(), metadata);
        if missing_keys(required, metadata).len() == 0 {
            assert forall|i: int| 0 <= i < required.len() implies has_key(metadata, #[trigger] required[i]) by {
                if i < required.len() - 1 {
                    assert(required.drop_last()[i] == required[i]);
                }
            }
        }
        if forall|i: int| 0 <= i < required.len() ==> has_key(metadata, #[trigger] required[i]) {
            assert(has_key(metadata, required[required.len() - 1]));
            assert forall|i: int| 0 <= i < required.drop_last().len() implies has_key(metadata, #[trigger] required.drop_last()[i]) by {
                assert(required.drop_last()[i] == required[i]);
            }
        }
    }
}

/// Missing keys never get fewer when more keys are required.
pub proof fn lemma_missing_keys_grow(required: Seq<Seq<char>>, metadata: Seq<(Seq<char>, Seq<char>)>)
    ensures
        missing_keys(required, metadata).len() <= required.len(),
    decreases required.len(),
{
    if required.len() > 0 {
        lemma_missing_keys_grow(required.drop_last(), metadata);
    }
}

/// Every missing key is a required key.
proof fn lemma_missing_keys_required(required: Seq<Seq<char>>, metadata: Seq<(Seq<char>, Seq<char>)>, k: int)
    requires
        0 <= k < missing_keys(required, metadata).len(),
    ensures
        required.contains(missing_keys(required, metadata)[k]),
    decreases required.len(),
{
    if required.len() > 0 {
        let prev = missing_keys(required.drop_last(), metadata);
        if k < prev.len() {
            lemma_missing_keys_required(required.drop_last(), metadata, k);
            let i = choose|i: int| 0 <= i < required.drop_last().len() && required.drop_last()[i] == prev[k];
            assert(required[i] == prev[k]);
        } else {
            assert(required[required.len() - 1] == required.last());
        }
    }
}

/// A set of required keys (no key twice) is reported missing with each key at most once.
pub proof fn law_missing_keys_distinct(required: Seq<Seq<char>>, metadata: Seq<(Seq<char>, Seq<char>)>)
    requires
        required.no_duplicates(),
    ensures
        missing_keys(required, metadata).no_duplicates(),
    decreases required.len(),
{
    if required.len() > 0 {
        let rest = required.drop_last();
        assert(rest.no_duplicates()) by {
            assert forall|i: int, j: int| 0 <= i < rest.len() && 0 <= j < rest.len() && i != j implies rest[i] != rest[j] by {
                assert(rest[i] == required[i] && rest[j] == required[j]);
            }
        }
        law_missing_keys_distinct(rest, metadata);
        let prev = missing_keys(rest, metadata);
        if !has_key(metadata, required.last()) {
            assert forall|k: int| 0 <= k < prev.len() implies prev[k] != required.last() by {
                lemma_missing_keys_required(rest, metadata, k);
                let i = choose|i: int| 0 <= i < rest.len() && rest[i] == prev[k];
                assert(required[i] == rest[i]);
            }
        }
    }
}

/// A session whose metadata (from the first capability set that carries some) holds every
/// required key has it published; if a required key is absent, or no metadata is given
/// while keys are required, the session is refused.
pub proof fn law_required_metadata(sets: Seq<CapabilitiesView>, required: Seq<Seq<char>>)
    ensures
        (spec_metadata_verdict(sets, required) is Missing) <==> (match first_metadata(sets) {
            Some(m) => exists|i: int| 0 <= i < required.len() && !has_key(m, #[trigger] required[i]),
            None => required.len() > 0,
        }),
        (spec_metadata_verdict(sets, required) is Publish) <==> (match first_metadata(sets) {
            Some(m) => forall|i: int| 0 <= i < required.len() ==> has_key(m, #[trigger] required[i]),
            None => false,
        }),
{
    match first_metadata(sets) {
        Some(m) => {
            lemma_missing_keys_empty(required, m);
        },
        None => {},
    }
}

/// Shuffles the list with `rand::seq::SliceRandom::shuffle` and the thread-local
/// generator; the result is a permutation of the input, in an order left to chance.
#[verifier::external_body]
fn shuffle_texts(v: Vec<String>) -> (r: Vec<String>)
    ensures
        r@.to_multiset() == v@.to_multiset(),
{
    let mut v = v;
    rand::seq::SliceRandom::shuffle(v.as_mut_slice(), &mut rand::thread_rng());
    v
}

/// Picks one of the provisioners that answered, at random (layman's load balancing); fails
/// with `NoProvisioner` when none answered.
pub fn pick_provisioner(responses: Vec<ProvisionerMatchResponse>) -> (r: Result<String, SchedulingServiceError>)
    ensures
        responses@.len() == 0 ==> r == Err::<String, SchedulingServiceError>(SchedulingServiceError::NoProvisioner),
        responses@.len() > 0 ==> (r matches Ok(p) && exists|i: int| 0 <= i < responses@.len() && #[trigger] responses@[i].provisioner == p),
{
    let mut names: Vec<String> = Vec::new();
    let mut i: usize = 0;
    while i < responses.len()
        invariant
            i <= responses@.len(),
            names@.len() == i,
            forall|k: int| 0 <= k < i ==> #[trigger] names@[k] == responses@[k].provisioner,
        decreases responses@.len() - i,
    {
        names.push(responses[i].provisioner.clone());
        i = i + 1;
    }
    let ghost before = names@;
    let mut shuffled = shuffle_texts(names);
    match shuffled.pop() {
        Some(p) => {
            proof {
                let after = shuffled@.push(p);
                assert(after[after.len() - 1] == p);
                assert(after.contains(p));
                assert(after.to_multiset().count(p) > 0);
                assert(before.to_multiset().count(p) > 0);
                assert(before.contains(p));
                let k = choose|k: int| 0 <= k < before.len() && before[k] == p;
                assert(responses@[k].provisioner == p);
            }
            Ok(p)
        },
        None => {
            proof {
                assert(shuffled@.to_multiset().len() == 0);
                assert(before.to_multiset().len() == before.len());
            }
            Err(SchedulingServiceError::NoProvisioner)
        },
    }
}

/// Description of a scheduling error.
pub open spec fn error_message(e: SchedulingServiceError) -> Seq<char> {
    match e {
        SchedulingServiceError::ParsingFailed(_) => "capabilities parsing failed"@,
        SchedulingServiceError::NoProvisioner => "no provisioner answered the matching request"@,
        SchedulingServiceError::RequestFailure(_) => "matching request failed"@,
        SchedulingServiceError::PublishFailure(_) => "notification publishing failed"@,
        SchedulingServiceError::MissingMandatoryMetadata(keys) => "required metadata fields were not provided: "@ + keys@,
    }
}

impl SchedulingServiceError {
    /// Human readable description of the error.
    pub fn describe(&self) -> (r: String)
        ensures
            r@ == error_message(*self),
    {
        match self {
            SchedulingServiceError::ParsingFailed(_) => String::from_str("capabilities parsing failed"),
            SchedulingServiceError::NoProvisioner => String::from_str("no provisioner answered the matching request"),
            SchedulingServiceError::RequestFailure(_) => String::from_str("matching request failed"),
            SchedulingServiceError::PublishFailure(_) => String::from_str("notification publishing failed"),
            SchedulingServiceError::MissingMandatoryMetadata(keys) => {
                let mut r = String::from_str("required metadata fields were not provided: ");
                r.append(keys.as_str());
                r
            },
        }
    }
}

/// What the scheduling service does after handling a created session.
#[derive(Debug, Clone, PartialEq, Eq)]
pub enum SchedulingAction {
    /// Tell the provisioner (queue extension) that it has got a new job
    AssignJob(ProvisioningJobAssignedNotification, String),
    /// Announce the scheduled session
    AnnounceScheduled(SessionScheduledNotification),
    /// Announce that the session terminated because scheduling failed
    AnnounceFailure(SessionTerminatedNotification),
    /// Return the described error to the caller (the notification will be retried)
    Fail(String),
}

/// Actions for the outcome of scheduling a created session: a failed matching request is
/// handed back as an error; any other error announces the session's termination; a chosen
/// provisioner is assigned the job and the scheduling is announced, in that order.
pub fn scheduling_actions(
    notification: &SessionCreatedNotification,
    outcome: Result<String, SchedulingServiceError>,
) -> (r: Vec<SchedulingAction>)
    ensures
        match outcome {
            Err(SchedulingServiceError::RequestFailure(e)) => r@ == seq![SchedulingAction::Fail(e)],
            Err(e) => r@.len() == 1 && (match r@[0] {
                SchedulingAction::AnnounceFailure(n) => n.id == notification.id && (match n.reason {
                    SessionTerminationReason::StartupFailed(b) => b.message@ == error_message(e),
                    _ => false,
                }),
                _ => false,
            }),
            Ok(p) => r@.len() == 2 && (match r@[0] {
                SchedulingAction::AssignJob(job, ext) => job.session_id == notification.id
                    && job.capabilities.0@ == notification.capabilities.0@ && ext@ == p@,
                _ => false,
            }) && (match r@[1] {
                SchedulingAction::AnnounceScheduled(n) => n.id == notification.id && n.provisioner@ == p@,
                _ => false,
            }),
        },
{
    let mut r: Vec<SchedulingAction> = Vec::new();
    match outcome {
        Err(SchedulingServiceError::RequestFailure(e)) => {
            r.push(SchedulingAction::Fail(e));
        },
        Err(e) => {
            let cause = BlackboxError { message: e.describe() };
            r.push(SchedulingAction::AnnounceFailure(SessionTerminatedNotification::new_for_startup_failure(notification.id, cause)));
        },
        Ok(p) => {
            let job = ProvisioningJobAssignedNotification {
                session_id: notification.id,
                capabilities: crate::webdriver::capabilities::RawCapabilitiesRequest::new(notification.capabilities.0.clone()),
            };
            let ext = p.clone();
            r.push(SchedulingAction::AssignJob(job, ext));
            r.push(SchedulingAction::AnnounceScheduled(SessionScheduledNotification { id: notification.id, provisioner: p }));
        },
    }
    r
}

} // verus!
