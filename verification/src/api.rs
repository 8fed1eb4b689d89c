//! Data served by the metadata API: session states, stored session records and the views
//! rendered from them.

use crate::identifier::{SessionIdentifier, uuid_text};
use crate::webdriver::capabilities::{copy_opt_text, opt_text, text_pairs};
use vstd::prelude::*;
use vstd::string::*;

verus! {

/// Lifecycle position of a session
#[derive(Debug, Clone, Copy, PartialEq, Eq, Structural)]
pub enum SessionState {
    /// Submitted by a client
    Created,
    /// Assigned to a provisioner
    Scheduled,
    /// Processed by the assigned provisioner and handed over to the infrastructure
    Provisioned,
    /// Up and running, ready to serve requests
    Operational,
    /// Completely shut down and no longer serving requests.
    Terminated,
}

/// Database key of the timestamp at which a session reached a state.
pub open spec fn spec_database_key(state: SessionState) -> Seq<char> {
    match state {
        SessionState::Created => "createdAt"@,
        SessionState::Scheduled => "scheduledAt"@,
        SessionState::Provisioned => "provisionedAt"@,
        SessionState::Operational => "operationalAt"@,
        SessionState::Terminated => "terminatedAt"@,
    }
}

impl SessionState {
    /// Returns the database keys to use when querying for each state
    pub fn database_key(&self) -> (r: &'static str)
        ensures
            r@ == spec_database_key(*self),
    {
        match self {
            SessionState::Created => "createdAt",
            SessionState::Scheduled => "scheduledAt",
            SessionState::Provisioned => "provisionedAt",
            SessionState::Operational => "operationalAt",
            SessionState::Terminated => "terminatedAt",
        }
    }
}

/// Distinct states have distinct database keys.
pub proof fn law_database_keys_distinct(a: SessionState, b: SessionState)
    requires
        a != b,
    ensures
        spec_database_key(a) != spec_database_key(b),
{
    reveal_strlit("createdAt");
    reveal_strlit("scheduledAt");
    reveal_strlit("provisionedAt");
    reveal_strlit("operationalAt");
    reveal_strlit("terminatedAt");
    let ka = spec_database_key(a);
    let kb = spec_database_key(b);
    if ka.len() == kb.len() {
        assert(ka[0] != kb[0] || ka[1] != kb[1]);
    }
}

/// Root query object
#[derive(Debug, Clone, Copy, PartialEq, Eq, Structural)]
pub struct Query;

/// Set of queries that return session objects
#[derive(Debug, Clone, Copy, PartialEq, Eq, Structural)]
pub struct SessionQuery;

impl Query {
    /// Set of queries that return `Session` objects
    pub fn session(&self) -> (r: SessionQuery)
        ensures
            r == SessionQuery,
    {
        SessionQuery
    }
}

impl SessionQuery {
    /// Number of sessions returned by `latest` when no count is given, else the count.
    pub fn latest_limit(count: Option<i32>) -> (r: i64)
        ensures
            r == match count {
                Some(c) => c as i64,
                None => 10,
            },
    {
        match count {
            Some(c) => c as i64,
            None => 10,
        }
    }

    /// Database keys that bound a count query: sessions that reached `lower` (key set)
    /// but not `upper` (key unset).
    pub fn count_filter_keys(lower: SessionState, upper: SessionState) -> (r: (&'static str, &'static str))
        ensures
            r.0@ == spec_database_key(lower),
            r.1@ == spec_database_key(upper),
    {
        (lower.database_key(), upper.database_key())
    }
}

/// Document path of a client metadata field.
pub fn metadata_field_path(key: &str) -> (r: String)
    ensures
        r@ == "clientMetadata."@ + key@,
{
    let mut r = String::from_str("clientMetadata.");
    r.append(key);
    r
}

/// Field updates that patch a session's client metadata: each key under `clientMetadata.`.
pub fn metadata_update_fields(metadata: &Vec<(String, String)>) -> (r: Vec<(String, String)>)
    ensures
        r@.len() == metadata@.len(),
        forall|k: int| 0 <= k < r@.len() ==> #[trigger] r@[k].0@ == "clientMetadata."@ + metadata@[k].0@
            && r@[k].1@ == metadata@[k].1@,
{
    let mut r: Vec<(String, String)> = Vec::new();
    let mut i: usize = 0;
    while i < metadata.len()
        invariant
            i <= metadata@.len(),
            r@.len() == i,
            forall|k: int| 0 <= k < i ==> #[trigger] r@[k].0@ == "clientMetadata."@ + metadata@[k].0@
                && r@[k].1@ == metadata@[k].1@,
        decreases metadata@.len() - i,
    {
        let path = metadata_field_path(metadata[i].0.as_str());
        r.push((path, metadata[i].1.clone()));
        i = i + 1;
    }
    r
}

/// A key / value pair of metadata
#[derive(Debug, Clone, PartialEq, Eq)]
pub struct MetadataEntry {
    /// Key of the entry
    pub key: String,
    /// Value of the entry
    pub value: String,
}

/// Metadata provided by the browser on startup
#[derive(Debug, Clone, PartialEq, Eq)]
pub struct Browser {
    /// Browser name
    pub name: String,
    /// Browser version
    pub version: String,
}

/// Values identifying the provisioner used by the session
#[derive(Debug, Clone, PartialEq, Eq)]
pub struct Provisioner {
    /// Provisioner identifier
    pub id: String,
}

/// Metadata attached to the session
#[derive(Debug, Clone, PartialEq, Eq)]
pub struct Metadata {
    /// Values provided by a client either at startup or during the session
    pub client: Vec<MetadataEntry>,
    /// Values attached by the provisioner
    pub provisioner: Vec<MetadataEntry>,
}

/// Details of the video recording
#[derive(Debug, Clone, PartialEq, Eq)]
pub struct Video {
    /// HLS m3u8 playlist location
    pub playlist: String,
    /// Total number of bytes excluding metadata
    pub size: i32,
}

/// What is stored about a session.
#[derive(Debug, Clone, PartialEq, Eq)]
pub struct SessionRecord {
    /// Unique identifier generated on creation
    pub id: SessionIdentifier,
    /// Bytes of the recording, once known
    pub recording_bytes: Option<i64>,
    /// Provisioner the session was scheduled with
    pub provisioner: Option<String>,
    /// Metadata set by the client
    pub client_metadata: Vec<(String, String)>,
    /// Metadata set by the provisioner
    pub provisioner_metadata: Option<Vec<(String, String)>>,
    /// Browser name reported on startup
    pub browser_name: Option<String>,
    /// Browser version reported on startup
    pub browser_version: Option<String>,
}

/// Key / value texts of a list of entries.
pub open spec fn entry_texts(v: Seq<MetadataEntry>) -> Seq<(Seq<char>, Seq<char>)> {
    v.map_values(|e: MetadataEntry| (e.key@, e.value@))
}

/// Entries with the pairs of `v`, in order.
pub fn entries_of(v: &Vec<(String, String)>) -> (r: Vec<MetadataEntry>)
    ensures
        entry_texts(r@) == text_pairs(v@),
{
    let mut r: Vec<MetadataEntry> = Vec::new();
    let mut i: usize = 0;
    while i < v.len()
        invariant
            i <= v@.len(),
            r@.len() == i,
            forall|k: int| 0 <= k < i ==> #[trigger] r@[k].key@ == v@[k].0@ && r@[k].value@ == v@[k].1@,
        decreases v@.len() - i,
    {
        r.push(MetadataEntry { key: v[i].0.clone(), value: v[i].1.clone() });
        i = i + 1;
    }
    assert(entry_texts(r@) =~= text_pairs(v@));
    r
}

impl SessionRecord {
    /// Identifier text of the session.
    pub fn id(&self) -> (r: String)
        ensures
            r@ == uuid_text(self.id.0),
    {
        self.id.to_hyphenated_string()
    }

    /// The recording: its playlist location and size (zero while unknown; sizes beyond
    /// 32 bits are truncated as `as i32` does).
    pub fn video(&self) -> (r: Video)
        ensures
            r.playlist@ == "/storage/"@ + uuid_text(self.id.0) + "/screen.m3u8"@,
            r.size == match self.recording_bytes {
                Some(b) => b as i32,
                None => 0i32,
            },
    {
        let mut playlist = String::from_str("/storage/");
        let text = self.id.to_hyphenated_string();
        playlist.append(text.as_str());
        playlist.append("/screen.m3u8");
        let size = match self.recording_bytes {
            Some(b) => b as i32,
            None => 0,
        };
        Video { playlist, size }
    }

    /// The provisioner, empty when the session has not yet been provisioned.
    pub fn provisioner(&self) -> (r: Option<Provisioner>)
        ensures
            match self.provisioner {
                Some(p) => r matches Some(q) && q.id@ == p@,
                None => r is None,
            },
    {
        match &self.provisioner {
            Some(p) => Some(Provisioner { id: p.clone() }),
            None => None,
        }
    }

    /// Client and provisioner metadata as entries (no provisioner metadata gives none).
    pub fn metadata(&self) -> (r: Metadata)
        ensures
            entry_texts(r.client@) == text_pairs(self.client_metadata@),
            entry_texts(r.provisioner@) == match self.provisioner_metadata {
                Some(m) => text_pairs(m@),
                None => Seq::empty(),
            },
    {
        let client = entries_of(&self.client_metadata);
        let provisioner = match &self.provisioner_metadata {
            Some(m) => entries_of(m),
            None => {
                let v: Vec<MetadataEntry> = Vec::new();
                assert(entry_texts(v@) =~= Seq::empty());
                v
            },
        };
        Metadata { client, provisioner }
    }

    /// The browser, when both its name and its version are known.
    pub fn browser(&self) -> (r: Option<Browser>)
        ensures
            match (opt_text(self.browser_name), opt_text(self.browser_version)) {
                (Some(n), Some(v)) => r matches Some(b) && b.name@ == n && b.version@ == v,
                _ => r is None,
            },
    {
        match (copy_opt_text(&self.browser_name), copy_opt_text(&self.browser_version)) {
            (Some(name), Some(version)) => Some(Browser { name, version }),
            _ => None,
        }
    }
}

} // verus!
