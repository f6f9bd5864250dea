//! The decisions of the store operations: the time to live of an entry, the
//! size limits, and what each reply of the store records.
//!
//! The store's requests are sent around the library; each reply is handed
//! back to one of these functions.
use vstd::prelude::*;
use vstd::utf8::{decode_utf8, valid_utf8};
use crate::caching::external::{hot_view, ExternalCache};
use crate::caching::external::hot_cache::hot_insert_spec;
use crate::observability::metrics::cache::{
    after_error, after_get_latency, after_hit, after_miss, after_set_latency, after_skip,
    after_store, record_cache_error, record_cache_get_latency, record_cache_hit, record_cache_miss,
    record_cache_set_latency, record_cache_skip_too_large, record_cache_store,
};
use crate::caching::external::hot_result_metrics;
use crate::observability::metrics::labels::ExternalCacheLayer;
use crate::observability::metrics::registry::{Metrics, MetricsView};

verus! {

/// `base * multiplier`, saturating at the largest `u64`.
pub open spec fn sat_mul_u64(base: u64, multiplier: u64) -> u64 {
    if base * multiplier > u64::MAX {
        u64::MAX
    } else {
        (base * multiplier) as u64
    }
}

/// The reply of the store to a read.
pub enum CacheReply {
    /// The key held a value.
    Hit,
    /// The key held nothing.
    Miss,
    /// The request failed.
    Failed,
}

/// What to do with a result that is to be stored.
#[derive(PartialEq, Eq, Structural)]
pub enum ResultStorePlan {
    /// Do not store it: the store is disabled or the result too large.
    Skip,
    /// Store it with this time to live.
    StoreWithTtl(u64),
    /// Store it with the effective time to live of the result layer.
    StoreWithEffectiveTtl,
}

impl ExternalCache {
    /// The base time to live of a layer.
    pub fn base_ttl_secs(&self, layer: ExternalCacheLayer) -> (secs: u64)
        ensures
            secs == base_ttl_spec(self, layer),
    {
        match layer {
            ExternalCacheLayer::Source => self.config.source_ttl_secs,
            ExternalCacheLayer::Result | ExternalCacheLayer::HotResult => self.config.result_ttl_secs,
            ExternalCacheLayer::Version => self.config.version_ttl_secs,
        }
    }

    /// Whether reads are counted for the adaptive time to live: it is enabled
    /// and the store is connected.
    pub fn counts_reads(&self) -> (res: bool)
        ensures
            res == (self.config.adaptive_ttl && self.connected),
    {
        self.config.adaptive_ttl && self.connected
    }

    /// The effective time to live of an entry: the base of its layer, times
    /// the hot multiplier (saturating) when reads are counted and the entry's
    /// read count (`None` when counting failed, read as 0; negative read as 0)
    /// reached the hot threshold.
    pub fn effective_ttl_secs(&self, layer: ExternalCacheLayer, count: Option<i64>) -> (secs: u64)
        ensures
            secs == effective_ttl_spec(self, layer, count),
    {
        let base = self.base_ttl_secs(layer);
        if !self.counts_reads() {
            return base;
        }
        let c: i64 = match count {
            Some(c) => c,
            None => 0,
        };
        let reads: u64 = if c < 0 {
            0
        } else {
            c as u64
        };
        if reads >= self.config.hot_threshold {
            match base.checked_mul(self.config.hot_ttl_multiplier) {
                Some(v) => v,
                None => u64::MAX,
            }
        } else {
            base
        }
    }

    /// Prepares storing a result: it goes into the hot cache first; then it
    /// is stored in the store unless the store is disabled or the result is
    /// larger than its limit (recorded as a skip), with the given time to
    /// live or else the effective one.
    pub fn plan_result_store(
        &mut self,
        metrics: &mut Metrics,
        result_cache_key: &str,
        payload: &[u8],
        ttl_override_secs: Option<u64>,
    ) -> (plan: ResultStorePlan)
        requires
            old(self).wf(),
            old(metrics)@.wf(),
        ensures
            final(self).wf(),
            final(self).connected == old(self).connected,
            final(self).config == old(self).config,
            hot_view(final(self).hot_cache) == match hot_view(old(self).hot_cache) {
                Some(s) => Some(hot_insert_spec(s, result_cache_key@, payload@).0),
                None => None,
            },
            ({
                let hot = match hot_view(old(self).hot_cache) {
                    Some(s) => hot_result_metrics(
                        old(metrics)@,
                        hot_insert_spec(s, result_cache_key@, payload@).1,
                    ),
                    None => old(metrics)@,
                };
                if !old(self).connected {
                    plan == ResultStorePlan::Skip && final(metrics)@ == hot
                } else if payload@.len() > old(self).config.result_max_store_bytes {
                    plan == ResultStorePlan::Skip && final(metrics)@ == after_skip(
                        hot,
                        ExternalCacheLayer::Result,
                    )
                } else {
                    final(metrics)@ == hot && plan == match ttl_override_secs {
                        Some(t) => ResultStorePlan::StoreWithTtl(t),
                        None => ResultStorePlan::StoreWithEffectiveTtl,
                    }
                }
            }),
    {
        self.set_hot_result(metrics, result_cache_key, payload);
        if !self.enabled() {
            return ResultStorePlan::Skip;
        }
        if payload.len() > self.config.result_max_store_bytes {
            record_cache_skip_too_large(metrics, ExternalCacheLayer::Result, payload.len());
            return ResultStorePlan::Skip;
        }
        match ttl_override_secs {
            Some(t) => ResultStorePlan::StoreWithTtl(t),
            None => ResultStorePlan::StoreWithEffectiveTtl,
        }
    }

    /// Whether source bytes of `len` bytes are stored: the store is enabled
    /// and they are within the limit; over the limit, a skip is recorded.
    pub fn admit_source_store(&self, metrics: &mut Metrics, len: usize) -> (store: bool)
        requires
            old(metrics)@.wf(),
        ensures
            store == (self.connected && len <= self.config.source_max_store_bytes),
            final(metrics)@ == if self.connected && len > self.config.source_max_store_bytes {
                after_skip(old(metrics)@, ExternalCacheLayer::Source)
            } else {
                old(metrics)@
            },
    {
        if !self.enabled() {
            return false;
        }
        if len > self.config.source_max_store_bytes {
            record_cache_skip_too_large(metrics, ExternalCacheLayer::Source, len);
            return false;
        }
        true
    }
}

/// The base time to live of a layer.
pub open spec fn base_ttl_spec(cache: &ExternalCache, layer: ExternalCacheLayer) -> u64 {
    match layer {
        ExternalCacheLayer::Source => cache.config.source_ttl_secs,
        ExternalCacheLayer::Result | ExternalCacheLayer::HotResult => cache.config.result_ttl_secs,
        ExternalCacheLayer::Version => cache.config.version_ttl_secs,
    }
}

/// The effective time to live of an entry with the given read count.
pub open spec fn effective_ttl_spec(cache: &ExternalCache, layer: ExternalCacheLayer, count: Option<i64>) -> u64 {
    let base = base_ttl_spec(cache, layer);
    if !(cache.config.adaptive_ttl && cache.connected) {
        base
    } else {
        let c = match count {
            Some(c) => c,
            None => 0,
        };
        let reads: int = if c < 0 {
            0
        } else {
            c as int
        };
        if reads >= cache.config.hot_threshold {
            sat_mul_u64(base, cache.config.hot_ttl_multiplier)
        } else {
            base
        }
    }
}

/// Records the reply to a read of `layer` that took `millis`: a hit or a
/// miss with its latency, or an error. Returns whether it was a hit.
pub fn record_get_reply(metrics: &mut Metrics, layer: ExternalCacheLayer, reply: CacheReply, millis: u64) -> (hit: bool)
    requires
        old(metrics)@.wf(),
    ensures
        hit == (reply is Hit),
        final(metrics)@ == match reply {
            CacheReply::Hit => after_get_latency(after_hit(old(metrics)@, layer), layer, millis),
            CacheReply::Miss => after_get_latency(after_miss(old(metrics)@, layer), layer, millis),
            CacheReply::Failed => after_error(old(metrics)@, layer),
        },
{
    match reply {
        CacheReply::Hit => {
            record_cache_hit(metrics, layer);
            record_cache_get_latency(metrics, layer, millis);
            true
        },
        CacheReply::Miss => {
            record_cache_miss(metrics, layer);
            record_cache_get_latency(metrics, layer, millis);
            false
        },
        CacheReply::Failed => {
            record_cache_error(metrics, layer);
            false
        },
    }
}

/// Records the reply to a write of `bytes` bytes to `layer` that took
/// `millis`: the store and its latency, or an error.
pub fn record_set_reply(metrics: &mut Metrics, layer: ExternalCacheLayer, ok: bool, bytes: usize, millis: u64)
    requires
        old(metrics)@.wf(),
    ensures
        final(metrics)@ == if ok {
            after_set_latency(after_store(old(metrics)@, layer, bytes), layer, millis)
        } else {
            after_error(old(metrics)@, layer)
        },
{
    if ok {
        record_cache_store(metrics, layer, bytes);
        record_cache_set_latency(metrics, layer, millis);
    } else {
        record_cache_error(metrics, layer);
    }
}

/// `String::from_utf8`: the text that the bytes encode, when they are UTF-8.
#[verifier::external_body]
fn utf8_string(bytes: Vec<u8>) -> (res: Option<String>)
    ensures
        match res {
            Some(s) => valid_utf8(bytes@) && s@ == decode_utf8(bytes@),
            None => !valid_utf8(bytes@),
        },
{
    String::from_utf8(bytes).ok()
}

/// A cached version token: the text of the bytes, when they are UTF-8 and
/// not empty.
pub fn version_from_bytes(bytes: Vec<u8>) -> (token: Option<String>)
    ensures
        match token {
            Some(t) => valid_utf8(bytes@) && t@ == decode_utf8(bytes@) && t@.len() > 0,
            None => !valid_utf8(bytes@) || decode_utf8(bytes@).len() == 0,
        },
{
    match utf8_string(bytes) {
        Some(s) => {
            if s.as_str().unicode_len() == 0 {
                None
            } else {
                Some(s)
            }
        },
        None => None,
    }
}

/// The adaptive time to live only extends: an entry's effective time to live
/// is never below the base of its layer, and hot entries (read at least the
/// threshold times) get the base times the multiplier, saturating.
pub proof fn lemma_effective_ttl_extends(cache: &ExternalCache, layer: ExternalCacheLayer, count: Option<i64>)
    requires
        cache.config.hot_ttl_multiplier >= 1,
    ensures
        effective_ttl_spec(cache, layer, count) >= base_ttl_spec(cache, layer),
{
    let base = base_ttl_spec(cache, layer);
    let m = cache.config.hot_ttl_multiplier;
    assert(base * m >= base) by (nonlinear_arith)
        requires
            m >= 1,
    ;
}

} // verus!
