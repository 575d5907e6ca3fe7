use vstd::prelude::*;
use vstd::string::StringExecFns;

use crate::agent::DEFAULT_AGENT_TTL_SECS;
use crate::config::{
    BackendParams, BackendType, DiscoveryConfig, HealthCheckConfig, LoadBalanceStrategy,
    DEFAULT_REFRESH_SECS,
};
use crate::lease_kv::DEFAULT_KV_TTL_SECS;
use crate::registry::{calibrated, HeartbeatTiming, DEFAULT_HEARTBEAT_SECS};
use crate::static_backend::{keeps_registrations, DEFAULT_DNS_DOMAIN};

verus! {

/// The agent URL used when no endpoint is given.
pub const DEFAULT_AGENT_URL: &'static str = "http://localhost:8500";

/// The mesh control-plane URL used when no endpoint is given.
pub const DEFAULT_XDS_URL: &'static str = "http://localhost:8080";

/// Why the factory could not build what was asked.
#[derive(Debug, Clone, Copy, PartialEq, Eq, Structural)]
pub enum FactoryError {
    /// DNS and mesh backends keep no registrations.
    RegistrationNotSupported,
    /// A lease-KV backend was configured without endpoints.
    MissingEndpoints,
}

impl FactoryError {
    /// A human-readable description.
    pub fn message(&self) -> (r: &'static str)
        ensures
            *self == FactoryError::RegistrationNotSupported ==> r@ == "registration not supported"@,
            *self == FactoryError::MissingEndpoints ==> r@ == "etcd endpoints not configured"@,
    {
        match self {
            FactoryError::RegistrationNotSupported => "registration not supported",
            FactoryError::MissingEndpoints => "etcd endpoints not configured",
        }
    }
}

/// The TTL that registrations on a backend live by: the lease time on lease-KV (60 s unless
/// configured), the TTL check on the agent (45 s unless configured).
pub open spec fn backend_ttl(backend: BackendType, kv_ttl: Option<u64>, agent_ttl: Option<u64>) -> u64 {
    if backend == BackendType::Etcd {
        match kv_ttl {
            Some(t) => t,
            None => DEFAULT_KV_TTL_SECS,
        }
    } else {
        match agent_ttl {
            Some(t) => t,
            None => DEFAULT_AGENT_TTL_SECS,
        }
    }
}

/// The heartbeat timing the factory gives a registry loop.
pub open spec fn factory_timing(
    backend: BackendType,
    heartbeat: Option<u64>,
    kv_ttl: Option<u64>,
    agent_ttl: Option<u64>,
) -> HeartbeatTiming {
    let ttl = backend_ttl(backend, kv_ttl, agent_ttl);
    let t = if ttl < 2 {
        2
    } else {
        ttl
    };
    let want = match heartbeat {
        Some(h) => h,
        None => DEFAULT_HEARTBEAT_SECS,
    };
    HeartbeatTiming {
        heartbeat_secs: if want < 1 {
            1
        } else if want > t / 2 {
            t / 2
        } else {
            want
        },
        ttl_secs: t,
    }
}

/// The backend parameters the factory gives a kind, endpoints and service type: lease-KV keeps
/// every endpoint and its lease time (`kv_ttl`, else 60 s); the agent and the mesh take the
/// first endpoint as their URL (else their local default); DNS uses the `local` domain.
pub open spec fn params_are_defaults(
    r: BackendParams,
    backend: BackendType,
    endpoints: Seq<String>,
    service_type: Seq<char>,
    kv_ttl: Option<u64>,
) -> bool {
    &&& r.service_type is Some && r.service_type->Some_0@ == service_type
    &&& r.addresses@.len() == 0
    &&& backend == BackendType::Etcd ==> r.endpoints@ == endpoints && r.ttl_secs == Some(
        match kv_ttl {
            Some(t) => t,
            None => DEFAULT_KV_TTL_SECS,
        },
    ) && r.url is None && r.domain is None && r.xds_server is None
    &&& backend == BackendType::Consul ==> r.url is Some && r.url->Some_0@ == (if endpoints.len() > 0 {
        endpoints[0]@
    } else {
        DEFAULT_AGENT_URL@
    }) && r.endpoints@.len() == 0 && r.ttl_secs is None && r.domain is None && r.xds_server is None
    &&& backend == BackendType::Dns ==> r.domain is Some && r.domain->Some_0@ == DEFAULT_DNS_DOMAIN@
        && r.endpoints@.len() == 0 && r.url is None && r.ttl_secs is None && r.xds_server is None
    &&& backend == BackendType::Mesh ==> r.xds_server is Some && r.xds_server->Some_0@ == (
    if endpoints.len() > 0 {
        endpoints[0]@
    } else {
        DEFAULT_XDS_URL@
    }) && r.endpoints@.len() == 0 && r.url is None && r.ttl_secs is None && r.domain is None
}

/// A configuration with every default around the given parameters: no namespace, version or
/// tag filter, consistent hashing, the default health check and a 30-second refresh.
pub open spec fn config_is_default(r: DiscoveryConfig, backend: BackendType, params: BackendParams) -> bool {
    &&& r.backend == backend
    &&& r.backend_config == params
    &&& r.namespace is None
    &&& r.version is None
    &&& r.tag_filters@.len() == 0
    &&& r.load_balance == LoadBalanceStrategy::ConsistentHash
    &&& r.health_check is Some
    &&& r.health_check->Some_0.interval == 10
    &&& r.health_check->Some_0.timeout == 5
    &&& r.health_check->Some_0.failure_threshold == 3
    &&& r.health_check->Some_0.success_threshold == 2
    &&& r.health_check->Some_0.path is Some
    &&& r.health_check->Some_0.path->Some_0@ == "/health"@
    &&& r.refresh_interval == Some(DEFAULT_REFRESH_SECS)
}

/// Wires backends, reconcilers and registry loops with their defaults.
pub struct DiscoveryFactory;

impl DiscoveryFactory {
    /// The backend parameters for a kind, endpoints and service type: lease-KV keeps every
    /// endpoint and its lease time (60 s unless given); the agent and the mesh take the first
    /// endpoint as their URL (else their local default); DNS uses the `local` domain.
    pub fn default_params(
        backend: BackendType,
        endpoints: Vec<String>,
        service_type: &str,
        kv_ttl: Option<u64>,
    ) -> (r: BackendParams)
        ensures
            params_are_defaults(r, backend, endpoints@, service_type@, kv_ttl),
    {
        let mut p = BackendParams::empty();
        p.service_type = Some(String::from_str(service_type));
        match backend {
            BackendType::Etcd => {
                p.ttl_secs = Some(
                    match kv_ttl {
                        Some(t) => t,
                        None => DEFAULT_KV_TTL_SECS,
                    },
                );
                p.endpoints = endpoints;
            },
            BackendType::Consul => {
                p.url = Some(
                    if endpoints.len() > 0 {
                        endpoints[0].clone()
                    } else {
                        String::from_str(DEFAULT_AGENT_URL)
                    },
                );
            },
            BackendType::Dns => {
                p.domain = Some(String::from_str(DEFAULT_DNS_DOMAIN));
            },
            BackendType::Mesh => {
                p.xds_server = Some(
                    if endpoints.len() > 0 {
                        endpoints[0].clone()
                    } else {
                        String::from_str(DEFAULT_XDS_URL)
                    },
                );
            },
        }
        p
    }

    /// A configuration with every default: the given parameters, no namespace, version or tag
    /// filter, consistent hashing, the default health check and a 30-second refresh.
    pub fn config_with_defaults(backend: BackendType, params: BackendParams) -> (r: DiscoveryConfig)
        ensures
            config_is_default(r, backend, params),
    {
        DiscoveryConfig {
            backend,
            backend_config: params,
            namespace: None,
            version: None,
            tag_filters: Vec::new(),
            load_balance: LoadBalanceStrategy::ConsistentHash,
            health_check: Some(HealthCheckConfig::default()),
            refresh_interval: Some(DEFAULT_REFRESH_SECS),
        }
    }

    /// The configuration and heartbeat timing for registering and discovering in one go: the
    /// timing of `registration_timing`, and `config_with_defaults` over `default_params` with
    /// that timing's TTL as lease time; refused on a backend that keeps no registrations.
    pub fn registration_config(
        backend: BackendType,
        endpoints: Vec<String>,
        service_type: &str,
        heartbeat: Option<u64>,
        kv_ttl: Option<u64>,
        agent_ttl: Option<u64>,
    ) -> (r: Result<(DiscoveryConfig, HeartbeatTiming), FactoryError>)
        ensures
            !keeps_registrations(backend) <==> r is Err,
            r is Err ==> r == Err::<(DiscoveryConfig, HeartbeatTiming), FactoryError>(
                FactoryError::RegistrationNotSupported,
            ),
            r is Ok ==> ({
                let (config, timing) = r->Ok_0;
                &&& timing == factory_timing(backend, heartbeat, kv_ttl, agent_ttl)
                &&& calibrated(timing)
                &&& config_is_default(config, backend, config.backend_config)
                &&& params_are_defaults(
                    config.backend_config,
                    backend,
                    endpoints@,
                    service_type@,
                    Some(timing.ttl_secs),
                )
            }),
    {
        match backend {
            BackendType::Etcd | BackendType::Consul => {
                let timing = DiscoveryFactory::registration_timing(backend, heartbeat, kv_ttl, agent_ttl);
                let params = DiscoveryFactory::default_params(
                    backend,
                    endpoints,
                    service_type,
                    Some(timing.ttl_secs),
                );
                Ok((DiscoveryFactory::config_with_defaults(backend, params), timing))
            },
            _ => Err(FactoryError::RegistrationNotSupported),
        }
    }

    /// The configuration for discovering with every default, as `config_with_defaults` over
    /// `default_params`; a lease-KV backend gets the TTL of `registration_timing` as lease
    /// time, so that any registry loop on it fits two heartbeats in one lease.
    pub fn create_with_defaults(
        backend: BackendType,
        endpoints: Vec<String>,
        service_type: &str,
        heartbeat: Option<u64>,
        kv_ttl: Option<u64>,
    ) -> (r: DiscoveryConfig)
        ensures
            config_is_default(r, backend, r.backend_config),
            params_are_defaults(
                r.backend_config,
                backend,
                endpoints@,
                service_type@,
                Some(factory_timing(BackendType::Etcd, heartbeat, kv_ttl, None).ttl_secs),
            ),
    {
        let timing = DiscoveryFactory::registration_timing(BackendType::Etcd, heartbeat, kv_ttl, None);
        let params = DiscoveryFactory::default_params(backend, endpoints, service_type, Some(timing.ttl_secs));
        DiscoveryFactory::config_with_defaults(backend, params)
    }

    /// The heartbeat timing of a registry loop on `backend`: the requested heartbeat (20 s unless
    /// given) against the backend's TTL, calibrated so that two heartbeats fit in one TTL.
    pub fn registration_timing(
        backend: BackendType,
        heartbeat: Option<u64>,
        kv_ttl: Option<u64>,
        agent_ttl: Option<u64>,
    ) -> (r: HeartbeatTiming)
        ensures
            r == factory_timing(backend, heartbeat, kv_ttl, agent_ttl),
            calibrated(r),
    {
        let ttl = match backend {
            BackendType::Etcd => match kv_ttl {
                Some(t) => t,
                None => DEFAULT_KV_TTL_SECS,
            },
            _ => match agent_ttl {
                Some(t) => t,
                None => DEFAULT_AGENT_TTL_SECS,
            },
        };
        HeartbeatTiming::calibrate(heartbeat, ttl)
    }

    /// Checks that a configuration can make a backend: a lease-KV backend needs endpoints.
    pub fn validate(config: &DiscoveryConfig) -> (r: Result<(), FactoryError>)
        ensures
            r is Err <==> (config.backend == BackendType::Etcd && config.backend_config.endpoints@.len()
                == 0),
            r is Err ==> r == Err::<(), FactoryError>(FactoryError::MissingEndpoints),
    {
        match config.backend {
            BackendType::Etcd => {
                if config.backend_config.endpoints.len() == 0 {
                    Err(FactoryError::MissingEndpoints)
                } else {
                    Ok(())
                }
            },
            _ => Ok(()),
        }
    }
}

/// The lease time of every lease-KV configuration that `create_with_defaults` produces holds two
/// of the heartbeats that the factory's timing asks for with the same settings.
pub proof fn lemma_defaults_ttl_calibrated(
    p: BackendParams,
    endpoints: Seq<String>,
    service_type: Seq<char>,
    heartbeat: Option<u64>,
    kv_ttl: Option<u64>,
)
    requires
        params_are_defaults(
            p,
            BackendType::Etcd,
            endpoints,
            service_type,
            Some(factory_timing(BackendType::Etcd, heartbeat, kv_ttl, None).ttl_secs),
        ),
    ensures
        p.ttl_secs is Some,
        2 * factory_timing(BackendType::Etcd, heartbeat, kv_ttl, None).heartbeat_secs <= p.ttl_secs->Some_0,
{
}

/// Every heartbeat timing the factory produces lets two heartbeats fit in one TTL, whatever the
/// backend and whatever the configuration asked for.
pub proof fn lemma_factory_ttl_calibrated(
    backend: BackendType,
    heartbeat: Option<u64>,
    kv_ttl: Option<u64>,
    agent_ttl: Option<u64>,
)
    ensures
        factory_timing(backend, heartbeat, kv_ttl, agent_ttl).heartbeat_secs * 2 <= factory_timing(
            backend,
            heartbeat,
            kv_ttl,
            agent_ttl,
        ).ttl_secs,
        factory_timing(backend, heartbeat, kv_ttl, agent_ttl).heartbeat_secs >= 1,
{
}

} // verus!
