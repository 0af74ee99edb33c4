//! Backoff policy: which statuses are worth another attempt, and how long to
//! wait before it.
use vstd::arithmetic::power::lemma_pow0;
use vstd::arithmetic::power2::{lemma_pow2_unfold, pow2};
use vstd::prelude::*;

verus! {

/// Delay before the first retry, in milliseconds.
pub const BASE_BACKOFF_MILLIS: u64 = 256;

/// Number of retries a client makes unless told otherwise.
pub const DEFAULT_MAX_RETRIES: usize = 6;

/// The HTTP statuses that mark a transient failure: too many requests,
/// internal server error, service unavailable.
pub open spec fn retryable(status: u16) -> bool {
    status == 429 || status == 500 || status == 503
}

/// Whether a response with this status should be tried again: exactly the
/// statuses of the retryable set.
pub fn is_status_retryable(status: i32) -> (r: bool)
    ensures
        r == (status == 429 || status == 500 || status == 503),
{
    status == 429 || status == 500 || status == 503
}

/// The exact backoff before retry number `attempt` (0-based): the base delay
/// doubled once per earlier retry.
pub open spec fn backoff(attempt: nat) -> int {
    BASE_BACKOFF_MILLIS * pow2(attempt)
}

/// A delay as a `u64` number of milliseconds: exact where it fits, the largest
/// value otherwise.
pub open spec fn clamp_millis(x: int) -> int {
    if x > u64::MAX {
        u64::MAX as int
    } else {
        x
    }
}

/// The delay to wait before retry number `attempt`, in milliseconds.
pub fn backoff_delay_millis(attempt: usize) -> (r: u64)
    ensures
        r == clamp_millis(backoff(attempt as nat)),
{
    let mut delay: u64 = BASE_BACKOFF_MILLIS;
    let mut i: usize = 0;
    proof {
        lemma_pow0(2);
    }
    while i < attempt
        invariant
            i <= attempt,
            delay == clamp_millis(backoff(i as nat)),
        decreases attempt - i,
    {
        proof {
            lemma_pow2_unfold((i + 1) as nat);
            let p = pow2(i as nat);
            assert(BASE_BACKOFF_MILLIS * (2 * p) == 2 * (BASE_BACKOFF_MILLIS * p)) by (nonlinear_arith);
        }
        if delay > u64::MAX / 2 {
            delay = u64::MAX;
        } else {
            delay = delay * 2;
        }
        i = i + 1;
    }
    delay
}

/// Backoff grows by exact doubling: the delay before retry `n` is the base
/// delay times two to the `n`, with no jitter, for every `n` whose delay
/// fits in milliseconds.
pub proof fn lemma_backoff_doubles(n: nat)
    requires
        backoff(n) <= u64::MAX,
    ensures
        clamp_millis(backoff(n)) == BASE_BACKOFF_MILLIS * pow2(n),
        n > 0 ==> backoff(n) == 2 * backoff((n - 1) as nat),
{
    if n > 0 {
        lemma_pow2_unfold(n);
        let p = pow2((n - 1) as nat);
        assert(BASE_BACKOFF_MILLIS * (2 * p) == 2 * (BASE_BACKOFF_MILLIS * p)) by (nonlinear_arith);
    }
}

} // verus!
