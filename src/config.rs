use vstd::prelude::*;
use vstd::string::{StrSliceExecFns, StringExecFns};

use crate::address::SocketAddress;

verus! {

/// What `str::to_lowercase` makes of a string.
pub uninterp spec fn lowercase_of(s: Seq<char>) -> Seq<char>;

/// Relies on `str::to_lowercase`: the result is a function of the characters alone.
#[verifier::external_body]
pub(crate) fn lowercase(s: &str) -> (r: String)
    ensures
        r@ == lowercase_of(s@),
{
    s.to_lowercase()
}

/// Whether two strings hold the same characters.
pub fn str_eq(a: &str, b: &str) -> (r: bool)
    ensures
        r == (a@ == b@),
{
    let n = a.unicode_len();
    if n != b.unicode_len() {
        return false;
    }
    let mut i: usize = 0;
    while i < n
        invariant
            n == a@.len(),
            n == b@.len(),
            i <= n,
            forall|j: int| 0 <= j < i ==> a@[j] == b@[j],
        decreases n - i,
    {
        if a.get_char(i) != b.get_char(i) {
            return false;
        }
        i = i + 1;
    }
    proof {
        assert(a@ =~= b@);
    }
    true
}

/// The coordination store a discovery configuration talks to.
#[derive(Debug, Clone, Copy, PartialEq, Eq, Structural)]
pub enum BackendType {
    Etcd,
    Consul,
    Dns,
    Mesh,
}

/// The backend a lower-case name selects.
pub open spec fn backend_of_name(n: Seq<char>) -> Option<BackendType> {
    if n == "etcd"@ {
        Some(BackendType::Etcd)
    } else if n == "consul"@ {
        Some(BackendType::Consul)
    } else if n == "dns"@ || n == "dns-srv"@ {
        Some(BackendType::Dns)
    } else if n == "mesh"@ || n == "xds"@ || n == "envoy"@ {
        Some(BackendType::Mesh)
    } else {
        None
    }
}

/// The message for a backend name that selects nothing.
pub open spec fn unknown_backend_message(s: Seq<char>) -> Seq<char> {
    "Unknown backend type: "@ + s
}

impl BackendType {
    /// The backend an already lower-cased name selects.
    pub fn from_lowercase(n: &str) -> (r: Option<BackendType>)
        ensures
            r == backend_of_name(n@),
    {
        if str_eq(n, "etcd") {
            Some(BackendType::Etcd)
        } else if str_eq(n, "consul") {
            Some(BackendType::Consul)
        } else if str_eq(n, "dns") || str_eq(n, "dns-srv") {
            Some(BackendType::Dns)
        } else if str_eq(n, "mesh") || str_eq(n, "xds") || str_eq(n, "envoy") {
            Some(BackendType::Mesh)
        } else {
            None
        }
    }

    /// Reads a backend name, ignoring case; an unknown name is an error that quotes it.
    pub fn from_str(s: &str) -> (r: Result<BackendType, String>)
        ensures
            match backend_of_name(lowercase_of(s@)) {
                Some(b) => r == Ok::<BackendType, String>(b),
                None => r is Err && r->Err_0@ == unknown_backend_message(s@),
            },
    {
        let lower = lowercase(s);
        match BackendType::from_lowercase(lower.as_str()) {
            Some(b) => Ok(b),
            None => {
                let mut msg = String::from_str("Unknown backend type: ");
                msg.append(s);
                Err(msg)
            },
        }
    }
}

/// How a client picks among the ready instances.
#[derive(Debug, Clone, Copy, PartialEq, Eq, Structural)]
pub enum LoadBalanceStrategy {
    RoundRobin,
    Random,
    ConsistentHash,
    LeastConnections,
    WeightedRoundRobin,
    WeightedRandom,
}

impl Default for LoadBalanceStrategy {
    fn default() -> (r: LoadBalanceStrategy)
        ensures
            r == LoadBalanceStrategy::ConsistentHash,
    {
        LoadBalanceStrategy::ConsistentHash
    }
}

/// `s` with every `-` turned into `_`.
pub open spec fn dashes_to_underscores(s: Seq<char>) -> Seq<char> {
    s.map_values(|c: char| if c == '-' { '_' } else { c })
}

/// The strategy a normalised (lower-case, `_`-separated) name selects.
pub open spec fn strategy_of_name(n: Seq<char>) -> Option<LoadBalanceStrategy> {
    if n == "round_robin"@ || n == "roundrobin"@ {
        Some(LoadBalanceStrategy::RoundRobin)
    } else if n == "random"@ {
        Some(LoadBalanceStrategy::Random)
    } else if n == "consistent_hash"@ || n == "consistenthash"@ {
        Some(LoadBalanceStrategy::ConsistentHash)
    } else if n == "least_connections"@ || n == "leastconnections"@ || n == "least_conn"@ {
        Some(LoadBalanceStrategy::LeastConnections)
    } else if n == "weighted_round_robin"@ || n == "weightedroundrobin"@ {
        Some(LoadBalanceStrategy::WeightedRoundRobin)
    } else if n == "weighted_random"@ || n == "weightedrandom"@ {
        Some(LoadBalanceStrategy::WeightedRandom)
    } else {
        None
    }
}

/// Turns every `-` of `s` into `_`.
pub fn replace_dashes(s: &str) -> (r: String)
    ensures
        r@ == dashes_to_underscores(s@),
{
    let n = s.unicode_len();
    let mut out = String::new();
    let mut i: usize = 0;
    while i < n
        invariant
            n == s@.len(),
            i <= n,
            out@ == dashes_to_underscores(s@.subrange(0, i as int)),
        decreases n - i,
    {
        if s.get_char(i) == '-' {
            out.append("_");
            proof {
                reveal_strlit("_");
            }
        } else {
            out.append(s.substring_char(i, i + 1));
        }
        proof {
            assert(out@ =~= dashes_to_underscores(s@.subrange(0, i + 1)));
        }
        i = i + 1;
    }
    proof {
        assert(s@.subrange(0, n as int) =~= s@);
    }
    out
}

/// The message for a strategy name that selects nothing.
pub open spec fn unknown_strategy_message(s: Seq<char>) -> Seq<char> {
    "Unknown load balance strategy: "@ + s
}

impl LoadBalanceStrategy {
    /// The strategy a normalised name selects.
    pub fn from_normalized(n: &str) -> (r: Option<LoadBalanceStrategy>)
        ensures
            r == strategy_of_name(n@),
    {
        if str_eq(n, "round_robin") || str_eq(n, "roundrobin") {
            Some(LoadBalanceStrategy::RoundRobin)
        } else if str_eq(n, "random") {
            Some(LoadBalanceStrategy::Random)
        } else if str_eq(n, "consistent_hash") || str_eq(n, "consistenthash") {
            Some(LoadBalanceStrategy::ConsistentHash)
        } else if str_eq(n, "least_connections") || str_eq(n, "leastconnections") || str_eq(
            n,
            "least_conn",
        ) {
            Some(LoadBalanceStrategy::LeastConnections)
        } else if str_eq(n, "weighted_round_robin") || str_eq(n, "weightedroundrobin") {
            Some(LoadBalanceStrategy::WeightedRoundRobin)
        } else if str_eq(n, "weighted_random") || str_eq(n, "weightedrandom") {
            Some(LoadBalanceStrategy::WeightedRandom)
        } else {
            None
        }
    }

    /// Reads a strategy name, ignoring case and treating `-` as `_`; an unknown name is an
    /// error that quotes it.
    pub fn from_str(s: &str) -> (r: Result<LoadBalanceStrategy, String>)
        ensures
            match strategy_of_name(dashes_to_underscores(lowercase_of(s@))) {
                Some(b) => r == Ok::<LoadBalanceStrategy, String>(b),
                None => r is Err && r->Err_0@ == unknown_strategy_message(s@),
            },
    {
        let lower = lowercase(s);
        let normalized = replace_dashes(lower.as_str());
        match LoadBalanceStrategy::from_normalized(normalized.as_str()) {
            Some(b) => Ok(b),
            None => {
                let mut msg = String::from_str("Unknown load balance strategy: ");
                msg.append(s);
                Err(msg)
            },
        }
    }
}

/// How namespaces are named: a default, and the separator inside keys.
pub struct NamespaceConfig {
    pub default: Option<String>,
    pub separator: Option<String>,
}

impl Default for NamespaceConfig {
    fn default() -> (r: NamespaceConfig)
        ensures
            r.default is None,
            r.separator is Some && r.separator->Some_0@ == "/"@,
    {
        NamespaceConfig { default: None, separator: Some(String::from_str("/")) }
    }
}

/// How versions are named and whether requests are routed by version.
pub struct VersionConfig {
    pub default: Option<String>,
    pub format: Option<String>,
    pub enable_routing: bool,
}

impl Default for VersionConfig {
    fn default() -> (r: VersionConfig)
        ensures
            r.default is None,
            r.format is Some && r.format->Some_0@ == "semver"@,
            r.enable_routing,
    {
        VersionConfig { default: None, format: Some(String::from_str("semver")), enable_routing: true }
    }
}

/// A predicate on one tag: present, or present with a given value.
pub struct TagFilter {
    pub key: String,
    pub value: Option<String>,
    pub pattern: Option<String>,
}

/// When an instance counts as healthy or unhealthy.
pub struct HealthCheckConfig {
    pub interval: u64,
    pub timeout: u64,
    pub failure_threshold: u32,
    pub success_threshold: u32,
    pub path: Option<String>,
}

impl Default for HealthCheckConfig {
    fn default() -> (r: HealthCheckConfig)
        ensures
            r.interval == 10,
            r.timeout == 5,
            r.failure_threshold == 3,
            r.success_threshold == 2,
            r.path is Some && r.path->Some_0@ == "/health"@,
    {
        HealthCheckConfig {
            interval: 10,
            timeout: 5,
            failure_threshold: 3,
            success_threshold: 2,
            path: Some(String::from_str("/health")),
        }
    }
}

/// The backend-specific parameters of a discovery configuration.
pub struct BackendParams {
    /// Endpoints of a lease-KV store.
    pub endpoints: Vec<String>,
    /// Base URL of an agent registry.
    pub url: Option<String>,
    /// DNS domain that SRV names live under.
    pub domain: Option<String>,
    /// Control-plane endpoint of a mesh.
    pub xds_server: Option<String>,
    /// The service type the reconciler watches.
    pub service_type: Option<String>,
    /// Lease lifetime in seconds.
    pub ttl_secs: Option<u64>,
    /// A static list of instance addresses (DNS fallback, mesh).
    pub addresses: Vec<SocketAddress>,
}

impl BackendParams {
    /// No parameter set.
    pub fn empty() -> (r: BackendParams)
        ensures
            r.endpoints@.len() == 0,
            r.url is None,
            r.domain is None,
            r.xds_server is None,
            r.service_type is None,
            r.ttl_secs is None,
            r.addresses@.len() == 0,
    {
        BackendParams {
            endpoints: Vec::new(),
            url: None,
            domain: None,
            xds_server: None,
            service_type: None,
            ttl_secs: None,
            addresses: Vec::new(),
        }
    }
}

/// A complete discovery configuration.
pub struct DiscoveryConfig {
    pub backend: BackendType,
    pub backend_config: BackendParams,
    pub namespace: Option<NamespaceConfig>,
    pub version: Option<VersionConfig>,
    pub tag_filters: Vec<TagFilter>,
    pub load_balance: LoadBalanceStrategy,
    pub health_check: Option<HealthCheckConfig>,
    pub refresh_interval: Option<u64>,
}

/// Seconds between two discovery passes when the configuration says nothing.
pub const DEFAULT_REFRESH_SECS: u64 = 30;

impl DiscoveryConfig {
    /// The configured default namespace, if any.
    pub fn default_namespace(&self) -> (r: Option<&String>)
        ensures
            r == match self.namespace {
                Some(n) => match n.default {
                    Some(d) => Some(&d),
                    None => None::<&String>,
                },
                None => None,
            },
    {
        match &self.namespace {
            Some(n) => match &n.default {
                Some(d) => Some(d),
                None => None,
            },
            None => None,
        }
    }

    /// Seconds between two discovery passes: the configured interval, else 30.
    pub fn refresh_secs(&self) -> (r: u64)
        ensures
            r == match self.refresh_interval {
                Some(s) => s,
                None => DEFAULT_REFRESH_SECS,
            },
    {
        match self.refresh_interval {
            Some(s) => s,
            None => DEFAULT_REFRESH_SECS,
        }
    }
}

} // verus!
