use vstd::prelude::*;

verus! {

/// The status codes of a gRPC call.
#[derive(Debug, Clone, Copy, PartialEq, Eq, Structural)]
pub enum RpcCode {
    Success,
    Cancelled,
    Unknown,
    InvalidArgument,
    DeadlineExceeded,
    NotFound,
    AlreadyExists,
    PermissionDenied,
    ResourceExhausted,
    FailedPrecondition,
    Aborted,
    OutOfRange,
    Unimplemented,
    Internal,
    Unavailable,
    DataLoss,
    Unauthenticated,
}

/// Calls that failed with these codes may succeed when tried again.
pub open spec fn retryable_code(c: RpcCode) -> bool {
    c == RpcCode::Unavailable || c == RpcCode::DeadlineExceeded || c == RpcCode::ResourceExhausted
}

fn is_retryable_code(c: RpcCode) -> (r: bool)
    ensures
        r == retryable_code(c),
{
    match c {
        RpcCode::Unavailable | RpcCode::DeadlineExceeded | RpcCode::ResourceExhausted => true,
        _ => false,
    }
}

/// The exponent of the backoff stops growing after this many attempts.
pub const MAX_BACKOFF_EXPONENT: u64 = 10;

/// `2` raised to `k`.
pub open spec fn pow2(k: nat) -> nat
    decreases k,
{
    if k == 0 {
        1
    } else {
        2 * pow2((k - 1) as nat)
    }
}

/// The delay before retry number `attempt`: `base * 2^min(attempt, 10)`, capped at `max`.
pub open spec fn exponential_delay(base: u64, max: u64, attempt: u64) -> nat {
    let k = if attempt < MAX_BACKOFF_EXPONENT {
        attempt
    } else {
        MAX_BACKOFF_EXPONENT
    };
    let d: nat = (base * pow2(k as nat)) as nat;
    if d < max {
        d
    } else {
        max as nat
    }
}

/// Retries a limited number of times, waiting twice as long after each attempt.
pub struct ExponentialBackoffPolicy {
    pub max_attempts: usize,
    pub base_delay_ms: u64,
    pub max_delay_ms: u64,
}

impl ExponentialBackoffPolicy {
    /// A policy of `max_attempts` attempts whose delays start at `base_delay_ms` and stop
    /// growing at `max_delay_ms`.
    pub fn new(max_attempts: usize, base_delay_ms: u64, max_delay_ms: u64) -> (r: ExponentialBackoffPolicy)
        ensures
            r.max_attempts == max_attempts,
            r.base_delay_ms == base_delay_ms,
            r.max_delay_ms == max_delay_ms,
    {
        ExponentialBackoffPolicy { max_attempts, base_delay_ms, max_delay_ms }
    }

    /// Whether to retry after attempt number `attempt` failed with `code`.
    pub fn should_retry(&self, attempt: usize, code: RpcCode) -> (r: bool)
        ensures
            r == (attempt < self.max_attempts && retryable_code(code)),
    {
        attempt < self.max_attempts && is_retryable_code(code)
    }

    /// Milliseconds to wait before retry number `attempt`.
    pub fn backoff_ms(&self, attempt: u64) -> (r: u64)
        ensures
            r == exponential_delay(self.base_delay_ms, self.max_delay_ms, attempt),
    {
        let k = if attempt < MAX_BACKOFF_EXPONENT {
            attempt
        } else {
            MAX_BACKOFF_EXPONENT
        };
        let mut factor: u64 = 1;
        let mut i: u64 = 0;
        while i < k
            invariant
                i <= k,
                k <= MAX_BACKOFF_EXPONENT,
                factor == pow2(i as nat),
                1 <= factor <= 1024,
            decreases k - i,
        {
            proof {
                lemma_pow2_bound(i as nat);
            }
            factor = factor * 2;
            i = i + 1;
        }
        let base = self.base_delay_ms;
        let max = self.max_delay_ms;
        if base > max / factor {
            proof {
                assert(base * factor >= max) by (nonlinear_arith)
                    requires
                        base > max / factor,
                        factor >= 1,
                ;
            }
            max
        } else {
            proof {
                assert(base * factor <= max) by (nonlinear_arith)
                    requires
                        base <= max / factor,
                        factor >= 1,
                ;
            }
            base * factor
        }
    }
}

proof fn lemma_pow2_mono(a: nat, b: nat)
    requires
        a <= b,
    ensures
        1 <= pow2(a) <= pow2(b),
    decreases b,
{
    if b > a {
        lemma_pow2_mono(a, (b - 1) as nat);
    } else if a > 0 {
        lemma_pow2_mono(0, (a - 1) as nat);
    }
}

proof fn lemma_pow2_bound(i: nat)
    requires
        i < 10,
    ensures
        pow2(i + 1) <= 1024,
        pow2(i + 1) == 2 * pow2(i),
{
    lemma_pow2_mono(i + 1, 10);
    reveal_with_fuel(pow2, 11);
    assert(pow2(10) == 1024);
}

/// Retries a limited number of times with the same delay each time.
pub struct FixedRetryPolicy {
    pub max_attempts: usize,
    pub delay_ms: u64,
}

impl FixedRetryPolicy {
    /// A policy of `max_attempts` attempts, `delay_ms` apart.
    pub fn new(max_attempts: usize, delay_ms: u64) -> (r: FixedRetryPolicy)
        ensures
            r.max_attempts == max_attempts,
            r.delay_ms == delay_ms,
    {
        FixedRetryPolicy { max_attempts, delay_ms }
    }

    /// Whether to retry after attempt number `attempt` failed with `code`.
    pub fn should_retry(&self, attempt: usize, code: RpcCode) -> (r: bool)
        ensures
            r == (attempt < self.max_attempts && retryable_code(code)),
    {
        attempt < self.max_attempts && is_retryable_code(code)
    }

    /// Milliseconds to wait before any retry.
    pub fn backoff_ms(&self, attempt: u64) -> (r: u64)
        ensures
            r == self.delay_ms,
    {
        self.delay_ms
    }
}

} // verus!
