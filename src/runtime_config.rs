use vstd::prelude::*;

verus! {

/// Milliseconds the runtime waits for tasks to stop, unless configured.
pub const DEFAULT_SHUTDOWN_TIMEOUT_MS: u64 = 5000;

/// Milliseconds the runtime waits for tasks to report ready, unless configured.
pub const DEFAULT_READY_CHECK_TIMEOUT_MS: u64 = 30000;

/// Timeouts of the service runtime, in milliseconds, and whether tasks must report ready.
pub struct RuntimeConfig {
    pub shutdown_timeout_ms: u64,
    pub ready_check_timeout_ms: u64,
    pub enable_task_ready_check: bool,
}

impl RuntimeConfig {
    /// The defaults: 5 s to shut down, 30 s to become ready, readiness checked.
    pub fn new() -> (r: RuntimeConfig)
        ensures
            r.shutdown_timeout_ms == DEFAULT_SHUTDOWN_TIMEOUT_MS,
            r.ready_check_timeout_ms == DEFAULT_READY_CHECK_TIMEOUT_MS,
            r.enable_task_ready_check,
    {
        RuntimeConfig {
            shutdown_timeout_ms: DEFAULT_SHUTDOWN_TIMEOUT_MS,
            ready_check_timeout_ms: DEFAULT_READY_CHECK_TIMEOUT_MS,
            enable_task_ready_check: true,
        }
    }

    /// This configuration with another shutdown timeout.
    pub fn with_shutdown_timeout(self, timeout_ms: u64) -> (r: RuntimeConfig)
        ensures
            r.shutdown_timeout_ms == timeout_ms,
            r.ready_check_timeout_ms == self.ready_check_timeout_ms,
            r.enable_task_ready_check == self.enable_task_ready_check,
    {
        RuntimeConfig { shutdown_timeout_ms: timeout_ms, ..self }
    }

    /// This configuration with another readiness timeout.
    pub fn with_ready_check_timeout(self, timeout_ms: u64) -> (r: RuntimeConfig)
        ensures
            r.ready_check_timeout_ms == timeout_ms,
            r.shutdown_timeout_ms == self.shutdown_timeout_ms,
            r.enable_task_ready_check == self.enable_task_ready_check,
    {
        RuntimeConfig { ready_check_timeout_ms: timeout_ms, ..self }
    }

    /// This configuration with readiness checks switched on or off.
    pub fn with_task_ready_check(self, enable: bool) -> (r: RuntimeConfig)
        ensures
            r.enable_task_ready_check == enable,
            r.shutdown_timeout_ms == self.shutdown_timeout_ms,
            r.ready_check_timeout_ms == self.ready_check_timeout_ms,
    {
        RuntimeConfig { enable_task_ready_check: enable, ..self }
    }
}

} // verus!
