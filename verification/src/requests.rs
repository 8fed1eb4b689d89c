//! Requests that expect a response, and their responses.

use crate::events::{ProvisionerIdentifier, QueueDescriptor, is_queue, QUEUE_SIZE_STARTUP_WORKFLOW};
use crate::identifier::{SessionIdentifier, uuid_text};
use crate::webdriver::capabilities::{CapabilitiesRequest, requests_equal, requests_equivalent};
use vstd::std_specs::cmp::PartialEqSpecImpl;
use vstd::prelude::*;
use vstd::string::*;

verus! {

/// Location a response is published at.
pub type ResponseLocation = String;

/// A version 4 UUID of the RFC 4122 variant: version nibble 4, variant bits `10`.
pub open spec fn is_random_uuid(v: u128) -> bool {
    (v >> 76u128) & 0xfu128 == 4 && (v >> 62u128) & 3u128 == 2
}

/// Draws a random UUID with `uuid::Uuid::new_v4`, which sets the version and variant bits
/// of random bits; only those bits are promised.
#[verifier::external_body]
fn random_uuid() -> (v: u128)
    ensures
        is_random_uuid(v),
{
    uuid::Uuid::new_v4().as_u128()
}

/// A fresh response location: the hyphenated text of a random UUID.
pub fn new_response_location() -> (r: ResponseLocation)
    ensures
        exists|v: u128| r@ == uuid_text(v) && is_random_uuid(v),
{
    let v = random_uuid();
    SessionIdentifier(v).to_hyphenated_string()
}

/// Request for provisioners that support the given capabilities
#[derive(Debug, Clone, Eq)]
pub struct ProvisionerMatchRequest {
    /// Capabilities object a responder has to support
    pub capabilities: CapabilitiesRequest,
    response_location: ResponseLocation,
}

impl ProvisionerMatchRequest {
    /// Creates a new instance from capabilities and a randomly assigned response location
    pub fn new(capabilities: CapabilitiesRequest) -> (r: ProvisionerMatchRequest)
        ensures
            r.spec_capabilities() == capabilities@,
            exists|v: u128| r.spec_reply_to() == uuid_text(v) && is_random_uuid(v),
    {
        ProvisionerMatchRequest { capabilities, response_location: new_response_location() }
    }

    /// Where the response is expected.
    pub closed spec fn spec_reply_to(&self) -> Seq<char> {
        self.response_location@
    }

    /// Capabilities a responder has to support.
    pub closed spec fn spec_capabilities(&self) -> crate::webdriver::capabilities::CapabilitiesRequestView {
        self.capabilities@
    }

    /// Where the response is expected.
    pub fn reply_to(&self) -> (r: ResponseLocation)
        ensures
            r@ == self.spec_reply_to(),
    {
        self.response_location.clone()
    }

    /// Queue of matching requests
    pub fn queue() -> (r: QueueDescriptor)
        ensures
            is_queue(r, "provisioner.match"@, QUEUE_SIZE_STARTUP_WORKFLOW),
    {
        QueueDescriptor { key: String::from_str("provisioner.match"), size: QUEUE_SIZE_STARTUP_WORKFLOW }
    }
}

/// Two match requests are equal when their capabilities are: where the response is
/// expected does not count.
impl PartialEq for ProvisionerMatchRequest {
    fn eq(&self, other: &ProvisionerMatchRequest) -> (r: bool) {
        requests_equal(&self.capabilities, &other.capabilities)
    }
}

impl PartialEqSpecImpl for ProvisionerMatchRequest {
    open spec fn obeys_eq_spec() -> bool {
        true
    }

    open spec fn eq_spec(&self, other: &ProvisionerMatchRequest) -> bool {
        requests_equivalent(self.spec_capabilities(), other.spec_capabilities())
    }
}

/// Two match requests made from equal capabilities compare equal, whatever response
/// locations they were given.
pub proof fn law_match_requests_compare_capabilities(a: ProvisionerMatchRequest, b: ProvisionerMatchRequest)
    requires
        a.spec_capabilities() == b.spec_capabilities(),
    ensures
        requests_equivalent(a.spec_capabilities(), b.spec_capabilities()),
{
    crate::webdriver::capabilities::lemma_requests_equivalent_reflexive(a.spec_capabilities());
}

/// Response to a [`ProvisionerMatchRequest`]
#[derive(Debug, Clone, PartialEq, Eq)]
pub struct ProvisionerMatchResponse {
    /// Unique identifier of the matched provisioner
    pub provisioner: ProvisionerIdentifier,
}

/// Request to read an object from persistent storage
#[derive(Debug, Clone, PartialEq, Eq)]
pub struct StorageReadRequest {
    /// Unique identifier of the session the object is associated with
    pub session_id: SessionIdentifier,
    /// Object location within the session storage namespace
    pub path: String,
    response_location: ResponseLocation,
}

impl StorageReadRequest {
    /// Creates a request with a randomly assigned response location.
    pub fn new(session_id: SessionIdentifier, path: String) -> (r: StorageReadRequest)
        ensures
            r.spec_session_id() == session_id,
            r.spec_path() == path@,
            exists|v: u128| r.spec_reply_to() == uuid_text(v) && is_random_uuid(v),
    {
        StorageReadRequest { session_id, path, response_location: new_response_location() }
    }

    /// Where the response is expected.
    pub closed spec fn spec_reply_to(&self) -> Seq<char> {
        self.response_location@
    }

    /// Session the object belongs to.
    pub closed spec fn spec_session_id(&self) -> SessionIdentifier {
        self.session_id
    }

    /// Object location.
    pub closed spec fn spec_path(&self) -> Seq<char> {
        self.path@
    }

    /// Where the response is expected.
    pub fn reply_to(&self) -> (r: ResponseLocation)
        ensures
            r@ == self.spec_reply_to(),
    {
        self.response_location.clone()
    }

    /// Queue of read requests
    pub fn queue() -> (r: QueueDescriptor)
        ensures
            is_queue(r, "storage.read"@, 100),
    {
        QueueDescriptor { key: String::from_str("storage.read"), size: 100 }
    }
}

/// Response to a [`StorageReadRequest`]
#[derive(Debug, Clone, PartialEq, Eq)]
pub struct StorageReadResponse {
    /// URL from which the object can be fetched using an HTTP GET request
    pub location: String,
}

/// Request to write an object to persistent storage
#[derive(Debug, Clone, PartialEq, Eq)]
pub struct StorageWriteRequest {
    /// Unique identifier of the session the object is associated with
    pub session_id: SessionIdentifier,
    /// Object location within the session storage namespace
    pub path: String,
    /// MIME type of the object to be written
    pub mime: String,
    response_location: ResponseLocation,
}

impl StorageWriteRequest {
    /// Creates a request with a randomly assigned response location.
    pub fn new(session_id: SessionIdentifier, path: String, mime: String) -> (r: StorageWriteRequest)
        ensures
            r.spec_session_id() == session_id,
            r.spec_path() == path@,
            r.spec_mime() == mime@,
            exists|v: u128| r.spec_reply_to() == uuid_text(v) && is_random_uuid(v),
    {
        StorageWriteRequest { session_id, path, mime, response_location: new_response_location() }
    }

    /// Where the response is expected.
    pub closed spec fn spec_reply_to(&self) -> Seq<char> {
        self.response_location@
    }

    /// Session the object belongs to.
    pub closed spec fn spec_session_id(&self) -> SessionIdentifier {
        self.session_id
    }

    /// Object location.
    pub closed spec fn spec_path(&self) -> Seq<char> {
        self.path@
    }

    /// MIME type of the object.
    pub closed spec fn spec_mime(&self) -> Seq<char> {
        self.mime@
    }

    /// Where the response is expected.
    pub fn reply_to(&self) -> (r: ResponseLocation)
        ensures
            r@ == self.spec_reply_to(),
    {
        self.response_location.clone()
    }

    /// Queue of write requests
    pub fn queue() -> (r: QueueDescriptor)
        ensures
            is_queue(r, "storage.write"@, 10000),
    {
        QueueDescriptor { key: String::from_str("storage.write"), size: 10000 }
    }
}

/// Response to a [`StorageWriteRequest`]
#[derive(Debug, Clone, PartialEq, Eq)]
pub struct StorageWriteResponse {
    /// URL to which the object can be written using an HTTP PUT request
    pub location: String,
}

} // verus!
