use vstd::prelude::*;
use vstd::string::StringExecFns;

use crate::config::{lowercase, lowercase_of, str_eq};

verus! {

/// The name and version a service runs under.
pub struct ServiceConfig {
    pub name: String,
    pub version: String,
}

/// Where a service registers itself.
pub struct RegistryConfig {
    pub registry_type: String,
    pub endpoints: Vec<String>,
    pub namespace: String,
    pub ttl: u64,
}

/// Whether a sidecar mesh manages the service.
pub struct MeshConfig {
    pub enabled: bool,
    pub service_name: String,
    pub namespace: String,
}

/// Where objects are stored.
pub struct StorageConfig {
    pub storage_type: String,
    pub endpoint: Option<String>,
    pub access_key: Option<String>,
    pub secret_key: Option<String>,
    pub bucket: Option<String>,
    pub region: Option<String>,
    pub use_ssl: Option<bool>,
}

/// The registry kind used when a configuration names none.
pub fn default_registry_type() -> (r: String)
    ensures
        r@ == "etcd"@,
{
    String::from_str("etcd")
}

/// The kind of registry a service registers with.
#[derive(Debug, Clone, Copy, PartialEq, Eq, Structural)]
pub enum RegistryType {
    Etcd,
    Consul,
    Mesh,
}

/// The registry a lower-case name selects; anything unknown selects the lease-KV store.
pub open spec fn registry_of_name(n: Seq<char>) -> RegistryType {
    if n == "consul"@ {
        RegistryType::Consul
    } else if n == "mesh"@ {
        RegistryType::Mesh
    } else {
        RegistryType::Etcd
    }
}

impl RegistryType {
    /// The registry an already lower-cased name selects.
    pub fn from_lowercase(n: &str) -> (r: RegistryType)
        ensures
            r == registry_of_name(n@),
    {
        if str_eq(n, "consul") {
            RegistryType::Consul
        } else if str_eq(n, "mesh") {
            RegistryType::Mesh
        } else {
            RegistryType::Etcd
        }
    }

    /// Reads a registry name, ignoring case; anything unknown selects the lease-KV store.
    pub fn from_str(s: &str) -> (r: RegistryType)
        ensures
            r == registry_of_name(lowercase_of(s@)),
    {
        let lower = lowercase(s);
        RegistryType::from_lowercase(lower.as_str())
    }
}

/// What a service reports about itself.
pub struct ServiceInfo {
    pub service_type: String,
    pub service_id: String,
    pub instance_id: String,
    pub address: String,
    pub port: u16,
    pub metadata: crate::tags::TagMap,
}

/// The role a service plays.
#[derive(Debug, Clone, Copy, PartialEq, Eq, Structural)]
pub enum ServiceType {
    Signaling,
    Push,
    Storage,
    Business,
}

/// The health a service reports to health checks.
#[derive(Debug, Clone, Copy, PartialEq, Eq, Structural)]
pub enum HealthStatus {
    Unknown,
    Serving,
    NotServing,
}

/// Request counters and the durations of the requests seen.
pub struct Metrics {
    pub requests_total: u64,
    pub requests_success: u64,
    pub requests_failed: u64,
    pub request_duration_ms: Vec<u64>,
}

impl Metrics {
    /// No request seen.
    pub fn new() -> (r: Metrics)
        ensures
            r.requests_total == 0,
            r.requests_success == 0,
            r.requests_failed == 0,
            r.request_duration_ms@ == Seq::<u64>::empty(),
    {
        Metrics { requests_total: 0, requests_success: 0, requests_failed: 0, request_duration_ms: Vec::new() }
    }

    /// Counts one request, a success or a failure, and records how long it took.
    pub fn record_request(&mut self, success: bool, duration_ms: u64)
        requires
            old(self).requests_total < u64::MAX,
            old(self).requests_success < u64::MAX,
            old(self).requests_failed < u64::MAX,
        ensures
            final(self).requests_total == old(self).requests_total + 1,
            final(self).requests_success == old(self).requests_success + if success { 1int } else { 0 },
            final(self).requests_failed == old(self).requests_failed + if success { 0int } else { 1 },
            final(self).request_duration_ms@ == old(self).request_duration_ms@.push(duration_ms),
    {
        self.requests_total = self.requests_total + 1;
        if success {
            self.requests_success = self.requests_success + 1;
        } else {
            self.requests_failed = self.requests_failed + 1;
        }
        self.request_duration_ms.push(duration_ms);
    }
}

} // verus!
