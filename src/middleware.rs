use vstd::prelude::*;

verus! {

/// Caps the number of requests a service handles at once.
pub struct RateLimitLayer {
    pub max_concurrent: usize,
}

impl RateLimitLayer {
    /// A cap of `max_concurrent` requests.
    pub fn new(max_concurrent: usize) -> (r: RateLimitLayer)
        ensures
            r.max_concurrent == max_concurrent,
    {
        RateLimitLayer { max_concurrent }
    }
}

/// Retries a failed client request.
pub struct RetryLayer {
    pub max_retries: usize,
}

impl RetryLayer {
    /// At most `max_retries` retries.
    pub fn new(max_retries: usize) -> (r: RetryLayer)
        ensures
            r.max_retries == max_retries,
    {
        RetryLayer { max_retries }
    }
}

/// Fails a request that takes longer than a bound.
pub struct TimeoutLayer {
    pub timeout_ms: u64,
}

impl TimeoutLayer {
    /// A bound of `timeout_ms` milliseconds.
    pub fn new(timeout_ms: u64) -> (r: TimeoutLayer)
        ensures
            r.timeout_ms == timeout_ms,
    {
        TimeoutLayer { timeout_ms }
    }
}

} // verus!
