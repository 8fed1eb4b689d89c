//! Service and job descriptions: what each background job is configured with.
//! Running them is I/O and happens outside this crate's verified part.

use core::time::Duration;
use std::sync::Arc;
use vstd::prelude::*;
use vstd::string::*;

verus! {

/// Structure which can be instantiated with a communication factory
pub trait Service<F> {
    /// Instance type which will be instantiated
    type Instance;
    /// Configuration type passed to the service
    type Config;

    /// Name of the service displayed in log messages
    fn name() -> &'static str;

    /// Creates a new instance which could be of a different type.
    fn instantiate(factory: F, config: &Self::Config) -> Self::Instance;
}

/// Runner of a service consuming a queue as a member of a consumer group
pub struct ServiceRunner<G, C> {
    /// Redis server URL
    pub redis_url: String,
    /// Consumer group
    pub group: G,
    /// Consumer name within the group
    pub consumer: String,
    /// Configuration handed to the service
    pub config: C,
    /// Extension of the queue name (e.g. a provisioner identifier)
    pub extension: Option<String>,
}

impl<G, C> ServiceRunner<G, C> {
    /// Creates a new runner job which will connect to the given redis server and use the provided consumer group and name.
    pub fn new(redis_url: String, group: G, consumer: String, config: C) -> (r: Self)
        ensures
            r.redis_url == redis_url,
            r.group == group,
            r.consumer == consumer,
            r.config == config,
            r.extension is None,
    {
        Self::new_with_extension(redis_url, None, group, consumer, config)
    }

    /// Same as [`ServiceRunner::new`] but with a queue extension
    pub fn new_with_extension(redis_url: String, extension: Option<String>, group: G, consumer: String, config: C) -> (r: Self)
        ensures
            r.redis_url == redis_url,
            r.group == group,
            r.consumer == consumer,
            r.config == config,
            r.extension == extension,
    {
        ServiceRunner { redis_url, group, consumer, config, extension }
    }
}

/// Kind of Redis connection a component asks for
#[derive(Debug, Clone, Copy, PartialEq, Eq, Structural)]
pub enum RedisConnectionVariant {
    /// A connection of its own
    Owned,
    /// A connection from a pool
    Pooled,
    /// The connection shared by all tasks of the process
    Multiplexed,
}

/// Only multiplexed connections use the shared connection; owned and pooled ones (pooling
/// is not implemented) each open a standalone connection.
pub fn uses_shared_connection(variant: RedisConnectionVariant) -> (r: bool)
    ensures
        r == (variant == RedisConnectionVariant::Multiplexed),
{
    match variant {
        RedisConnectionVariant::Owned | RedisConnectionVariant::Pooled => false,
        RedisConnectionVariant::Multiplexed => true,
    }
}

/// Stub resource handle provider, for situations without redundancy or task management
#[derive(Debug, Clone, Copy, PartialEq, Eq, Structural)]
pub struct DummyResourceHandleProvider {}

impl DummyResourceHandleProvider {
    /// Creates a new instance wrapped in an [`Arc`]
    pub fn new() -> (r: Arc<DummyResourceHandleProvider>)
        ensures
            *r == (DummyResourceHandleProvider {}),
    {
        Arc::new(DummyResourceHandleProvider {})
    }
}

/// Job which runs a service discovery daemon on a Redis backend
pub struct RedisServiceDiscoveryJob<D> {
    /// Redis server URL
    pub url: String,
    /// Discovery daemon
    pub daemon: D,
}

impl<D> RedisServiceDiscoveryJob<D> {
    /// Creates a new instance from an existing daemon instance
    pub fn new(url: String, daemon: D) -> (r: Self)
        ensures
            r.url == url,
            r.daemon == daemon,
    {
        RedisServiceDiscoveryJob { url, daemon }
    }
}

/// Job which advertises a given service at an endpoint
pub struct RedisServiceAdvertisementJob<D> {
    /// Redis server URL
    pub url: String,
    /// Advertised service
    pub service: D,
    /// Endpoint (host and port) of the service
    pub endpoint: String,
}

impl<D> RedisServiceAdvertisementJob<D> {
    /// Creates a new instance for a given service and endpoint
    pub fn new(url: String, service: D, endpoint: String) -> (r: Self)
        ensures
            r.url == url,
            r.service == service,
            r.endpoint == endpoint,
    {
        RedisServiceAdvertisementJob { url, service, endpoint }
    }
}

/// Ensures the internal managed session list is in agreement with the hardware
pub struct HardwareSynchronisationService<S, P> {
    /// Provisioning state whose dead sessions are released
    pub state: S,
    /// Provisioner asked for the alive sessions
    pub provisioner: Arc<P>,
    /// Time between two synchronisation cycles
    pub interval: Duration,
}

impl<S, P> HardwareSynchronisationService<S, P> {
    /// Creates a new instance
    pub fn new(state: S, provisioner: Arc<P>, interval: Duration) -> (r: Self)
        ensures
            r.state == state,
            r.provisioner == provisioner,
            r.interval == interval,
    {
        HardwareSynchronisationService { state, provisioner, interval }
    }
}

/// Watches for terminated sessions and releases the permits held by them
pub struct SessionTerminationWatcherService<S> {
    /// Provisioning state holding the permits
    pub state: S,
}

/// Answers session creation requests
pub struct SessionCreationResponder<H> {
    /// Channels to the notification publisher and the status listeners
    pub handle: H,
}

impl<H> SessionCreationResponder<H> {
    /// Creates a new instance
    pub fn new(handle: H) -> (r: Self)
        ensures
            r.handle == handle,
    {
        SessionCreationResponder { handle }
    }
}

/// Address at which a service is advertised: host, colon, port.
pub fn service_endpoint(host: &str, port: u16) -> (r: String)
    ensures
        r@ == host@ + ":"@ + crate::text::decimal(port as nat),
{
    let mut r = String::from_str(host);
    r.append(":");
    crate::text::append_decimal(&mut r, port as usize);
    r
}

} // verus!
