//! Which storage failures are retried, and how long to wait between attempts.
use vstd::prelude::*;

verus! {

/// Whether a response status warrants a retry: `429 Too Many Requests` and
/// every server error (`500` to `599`).
pub open spec fn retryable_status_spec(status: u16) -> bool {
    status == 429 || (500 <= status && status <= 599)
}

/// Checks whether an HTTP status code warrants a retry.
pub fn is_retryable_status(status: u16) -> (res: bool)
    ensures
        res == retryable_status_spec(status),
{
    status == 429 || (500 <= status && status <= 599)
}

/// `2^n` for `n <= 5`.
pub open spec fn pow2_upto5(n: u32) -> int {
    if n == 0 {
        1
    } else if n == 1 {
        2
    } else if n == 2 {
        4
    } else if n == 3 {
        8
    } else if n == 4 {
        16
    } else {
        32
    }
}

/// The backoff before the retry that follows attempt `attempt`:
/// `base * 2^min(attempt, 5)` milliseconds.
pub open spec fn backoff_spec(base_ms: u64, attempt: u32) -> int {
    base_ms * pow2_upto5(if attempt < 5 {
        attempt
    } else {
        5
    })
}

/// Exponential backoff in milliseconds, the exponent capped at 5.
pub fn backoff_delay(base_ms: u64, attempt: u32) -> (delay_ms: u128)
    ensures
        delay_ms == backoff_spec(base_ms, attempt),
{
    let shift: u32 = if attempt < 5 {
        attempt
    } else {
        5
    };
    let factor: u128 = if shift == 0 {
        1
    } else if shift == 1 {
        2
    } else if shift == 2 {
        4
    } else if shift == 3 {
        8
    } else if shift == 4 {
        16
    } else {
        32
    };
    assert(base_ms * factor <= u64::MAX * 32) by (nonlinear_arith)
        requires
            factor <= 32,
    ;
    (base_ms as u128) * factor
}

/// Backoff grows with the attempt and stops growing at 32 times the base:
/// a later attempt never waits less, and none waits more than `32 * base`.
pub proof fn lemma_backoff_monotone_and_capped(base_ms: u64, a1: u32, a2: u32)
    requires
        a1 <= a2,
    ensures
        backoff_spec(base_ms, a1) <= backoff_spec(base_ms, a2),
        backoff_spec(base_ms, a2) <= base_ms * 32,
{
    let e1: u32 = if a1 < 5 {
        a1
    } else {
        5
    };
    let e2: u32 = if a2 < 5 {
        a2
    } else {
        5
    };
    assert(pow2_upto5(e1) <= pow2_upto5(e2));
    assert(pow2_upto5(e2) <= 32);
    assert(base_ms * pow2_upto5(e1) <= base_ms * pow2_upto5(e2)) by (nonlinear_arith)
        requires
            pow2_upto5(e1) <= pow2_upto5(e2),
    ;
    assert(base_ms * pow2_upto5(e2) <= base_ms * 32) by (nonlinear_arith)
        requires
            pow2_upto5(e2) <= 32,
    ;
}

} // verus!
