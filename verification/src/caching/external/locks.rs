//! The decisions of distributed locking.
//!
//! A lock is a key set only when absent, holding a random token; only the
//! holder of the token extends or releases it. Waiters poll for the result
//! until a deadline. The requests and the waits happen around the library;
//! the library makes the token and records each reply.
use vstd::prelude::*;
use crate::caching::external::ExternalCache;
use crate::observability::metrics::cache::{
    after_hit, after_lock_acquired, after_lock_contended, after_lock_error, after_lock_timeout,
    after_lock_wait, after_release_error, record_cache_hit, record_cache_lock_acquired,
    record_cache_lock_contended, record_cache_lock_error, record_cache_lock_release_error,
    record_cache_lock_timeout, record_cache_lock_wait,
};
use crate::observability::metrics::labels::ExternalCacheLayer;
use crate::observability::metrics::registry::{Metrics, MetricsView};
use crate::text::{hex_fixed_lower, push_hex_fixed_lower};

verus! {

/// `fastrand::u64(..)`: a random `u64` over the whole range. Nothing is
/// claimed of the value.
#[verifier::external_body]
fn random_u64() -> (v: u64) {
    fastrand::u64(..)
}

/// A lock token: two numbers as sixteen lower-case hex digits each.
pub open spec fn lock_token_spec(a: u64, b: u64) -> Seq<char> {
    hex_fixed_lower(a as nat, 16) + hex_fixed_lower(b as nat, 16)
}

/// Writes a lock token from two numbers (`{:016x}{:016x}`).
pub fn lock_token_from(a: u64, b: u64) -> (token: String)
    ensures
        token@ == lock_token_spec(a, b),
{
    let mut token = String::new();
    push_hex_fixed_lower(&mut token, a, 16);
    push_hex_fixed_lower(&mut token, b, 16);
    token
}

/// A fresh lock token from two random numbers.
pub fn new_lock_token() -> (token: String)
    ensures
        exists|a: u64, b: u64| token@ == lock_token_spec(a, b),
{
    let a = random_u64();
    let b = random_u64();
    let token = lock_token_from(a, b);
    assert(token@ == lock_token_spec(a, b));
    token
}

/// The reply of the store to a lock request.
pub enum LockReply {
    /// The lock was set: it is ours.
    Acquired,
    /// Another request holds it.
    Contended,
    /// The request failed.
    Failed,
}

/// Records the reply to a lock request that took `millis`; returns whether
/// the lock is ours.
pub fn record_lock_reply(metrics: &mut Metrics, reply: LockReply, millis: u64) -> (acquired: bool)
    ensures
        acquired == (reply is Acquired),
        final(metrics)@ == match reply {
            LockReply::Acquired => after_lock_acquired(old(metrics)@, millis),
            LockReply::Contended => after_lock_contended(old(metrics)@),
            LockReply::Failed => after_lock_error(old(metrics)@),
        },
{
    match reply {
        LockReply::Acquired => {
            record_cache_lock_acquired(metrics, millis);
            true
        },
        LockReply::Contended => {
            record_cache_lock_contended(metrics);
            false
        },
        LockReply::Failed => {
            record_cache_lock_error(metrics);
            false
        },
    }
}

/// Records the reply to a lock extension (`None` when the request failed, else
/// the script's result); returns whether the lock was extended, which the
/// script reports as `1` when the token matched.
pub fn record_extend_reply(metrics: &mut Metrics, reply: Option<i32>) -> (extended: bool)
    ensures
        extended == (reply == Some(1i32)),
        final(metrics)@ == if reply is None {
            after_lock_error(old(metrics)@)
        } else {
            old(metrics)@
        },
{
    match reply {
        Some(r) => r == 1,
        None => {
            record_cache_lock_error(metrics);
            false
        },
    }
}

/// Records the reply to a lock release: an error when the request failed.
pub fn record_release_reply(metrics: &mut Metrics, ok: bool)
    ensures
        final(metrics)@ == if ok {
            old(metrics)@
        } else {
            after_release_error(old(metrics)@)
        },
{
    if !ok {
        record_cache_lock_release_error(metrics);
    }
}

/// Records a wait that found its key after `millis`: the wait and a hit.
pub fn record_wait_found(metrics: &mut Metrics, layer: ExternalCacheLayer, millis: u64)
    requires
        old(metrics)@.wf(),
    ensures
        final(metrics)@ == after_hit(after_lock_wait(old(metrics)@, millis), layer),
{
    record_cache_lock_wait(metrics, millis);
    record_cache_hit(metrics, layer);
}

/// Records a wait that gave up after `millis`.
pub fn record_wait_timeout(metrics: &mut Metrics, millis: u64)
    ensures
        final(metrics)@ == after_lock_timeout(old(metrics)@, millis),
{
    record_cache_lock_timeout(metrics, millis);
}

impl ExternalCache {
    /// Whether a wait that has lasted `elapsed_nanos` may poll again: it is
    /// still before the deadline of `lock_wait_ms`.
    pub fn wait_may_poll(&self, elapsed_nanos: u128) -> (res: bool)
        ensures
            res == (elapsed_nanos < self.config.lock_wait_ms * 1_000_000),
    {
        elapsed_nanos < (self.config.lock_wait_ms as u128) * 1_000_000
    }
}

} // verus!
