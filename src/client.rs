use vstd::prelude::*;
use vstd::string::StringExecFns;

verus! {

/// Where and how a plain gRPC client connects, timeouts in milliseconds.
pub struct ClientConfig {
    pub address: String,
    pub connect_timeout_ms: u64,
    pub timeout_ms: u64,
    pub max_retries: usize,
    pub tls_enabled: bool,
}

impl ClientConfig {
    /// The defaults: `http://localhost:50051`, 5 s to connect, 30 s per call, 3 retries, no TLS.
    pub fn default_config() -> (r: ClientConfig)
        ensures
            r.address@ == "http://localhost:50051"@,
            r.connect_timeout_ms == 5000,
            r.timeout_ms == 30000,
            r.max_retries == 3,
            !r.tls_enabled,
    {
        ClientConfig {
            address: String::from_str("http://localhost:50051"),
            connect_timeout_ms: 5000,
            timeout_ms: 30000,
            max_retries: 3,
            tls_enabled: false,
        }
    }
}

/// Builds a `ClientConfig` step by step; connecting is left to the caller.
pub struct ClientBuilder {
    pub config: ClientConfig,
}

impl ClientBuilder {
    /// A builder holding the default configuration.
    pub fn new() -> (r: ClientBuilder)
        ensures
            r.config.address@ == "http://localhost:50051"@,
            r.config.connect_timeout_ms == 5000,
            r.config.timeout_ms == 30000,
            r.config.max_retries == 3,
            !r.config.tls_enabled,
    {
        ClientBuilder { config: ClientConfig::default_config() }
    }

    /// The builder with another address.
    pub fn address(self, address: &str) -> (r: ClientBuilder)
        ensures
            r.config.address@ == address@,
            r.config.connect_timeout_ms == self.config.connect_timeout_ms,
            r.config.timeout_ms == self.config.timeout_ms,
            r.config.max_retries == self.config.max_retries,
            r.config.tls_enabled == self.config.tls_enabled,
    {
        let mut b = self;
        b.config.address = String::from_str(address);
        b
    }

    /// The builder with another connect timeout.
    pub fn connect_timeout(self, timeout_ms: u64) -> (r: ClientBuilder)
        ensures
            r.config.connect_timeout_ms == timeout_ms,
            r.config.address == self.config.address,
            r.config.timeout_ms == self.config.timeout_ms,
            r.config.max_retries == self.config.max_retries,
            r.config.tls_enabled == self.config.tls_enabled,
    {
        let mut b = self;
        b.config.connect_timeout_ms = timeout_ms;
        b
    }

    /// The builder with another per-call timeout.
    pub fn timeout(self, timeout_ms: u64) -> (r: ClientBuilder)
        ensures
            r.config.timeout_ms == timeout_ms,
            r.config.address == self.config.address,
            r.config.connect_timeout_ms == self.config.connect_timeout_ms,
            r.config.max_retries == self.config.max_retries,
            r.config.tls_enabled == self.config.tls_enabled,
    {
        let mut b = self;
        b.config.timeout_ms = timeout_ms;
        b
    }

    /// The builder with another retry count.
    pub fn max_retries(self, retries: usize) -> (r: ClientBuilder)
        ensures
            r.config.max_retries == retries,
            r.config.address == self.config.address,
            r.config.connect_timeout_ms == self.config.connect_timeout_ms,
            r.config.timeout_ms == self.config.timeout_ms,
            r.config.tls_enabled == self.config.tls_enabled,
    {
        let mut b = self;
        b.config.max_retries = retries;
        b
    }
}

} // verus!
