//! The layered cache: an in-process hot cache of results (`hot_cache`), an
//! external key-value store shared across instances (`store`), and a cache of
//! source bytes in the same store. Distributed locks (`locks`) keep
//! concurrent misses from doing the same work twice.
//!
//! - `config`: the cache policy read from the environment
//! - `keys`: cache and lock keys, namespaced and hashed
//! - `hot_cache`: the in-process LRU cache
//! - `store`: time to live, size limits and what each reply records
//! - `locks`: lock tokens and what each lock reply records
//! - `info_sampler`: figures read from the store's `INFO` report
//!
//! The connection to the store is held around the library; the library keeps
//! whether there is one.
pub mod config;
pub mod hot_cache;
pub mod info_sampler;
pub mod keys;
pub mod locks;
pub mod store;

use vstd::prelude::*;
use crate::caching::external::config::CacheConfig;
use crate::caching::external::hot_cache::{
    hot_get_spec, hot_insert_spec, HotInsertResult, HotState, InProcessHotCache,
};
use crate::config::env::{env_lookup, EnvVars};
use crate::observability::metrics::cache::{
    after_evictions, after_hit, after_miss, after_skip, after_store, record_cache_evictions,
    record_cache_hit, record_cache_miss, record_cache_skip_too_large, record_cache_store,
    set_external_cache_enabled,
};
use crate::observability::metrics::labels::ExternalCacheLayer;
use crate::observability::metrics::registry::{Metrics, MetricsView};
use crate::text::{chars_of, trim, trim_ws};

verus! {

/// The cache: whether the external store is connected, the policy, and the
/// hot cache when it is enabled.
pub struct ExternalCache {
    pub connected: bool,
    pub config: CacheConfig,
    pub hot_cache: Option<InProcessHotCache>,
}

/// The state of an optional hot cache.
pub open spec fn hot_view(h: Option<InProcessHotCache>) -> Option<HotState> {
    match h {
        Some(c) => Some(c@),
        None => None,
    }
}

/// The view of optional bytes.
pub open spec fn opt_bytes(o: Option<Vec<u8>>) -> Option<Seq<u8>> {
    match o {
        Some(b) => Some(b@),
        None => None,
    }
}

/// The store URL: the value of `IMAGIK_CACHE_URL` when it holds more than
/// white space.
pub open spec fn cache_url_spec(vars: Seq<(Seq<char>, Seq<char>)>) -> Option<Seq<char>> {
    match env_lookup(vars, "IMAGIK_CACHE_URL"@) {
        Some(v) => if trim_ws(v).len() > 0 {
            Some(v)
        } else {
            None
        },
        None => None,
    }
}

/// Reads the URL of the external store; `None` leaves the store disabled.
pub fn cache_url(env: &EnvVars) -> (url: Option<String>)
    ensures
        match url {
            Some(u) => cache_url_spec(env@) == Some(u@),
            None => cache_url_spec(env@) is None,
        },
{
    match env.get("IMAGIK_CACHE_URL") {
        Some(v) => {
            let chars = chars_of(v.as_str());
            let t = trim(chars.as_slice());
            if t.len() > 0 {
                Some(v.clone())
            } else {
                None
            }
        },
        None => None,
    }
}

impl ExternalCache {
    /// The invariant: the hot cache, when there is one, keeps its own.
    pub open spec fn wf(&self) -> bool {
        match self.hot_cache {
            Some(h) => h.wf(),
            None => true,
        }
    }

    /// A cache with the given policy, not yet connected to the store; the hot
    /// cache exists when the policy enables it, empty.
    pub fn new(config: CacheConfig) -> (cache: Self)
        requires
            config.hot_cache_max_items > 0,
        ensures
            cache.wf(),
            !cache.connected,
            cache.config == config,
            hot_view(cache.hot_cache) == if config.hot_cache_enabled {
                Some(
                    HotState {
                        entries: Seq::empty(),
                        current_bytes: 0,
                        cap: config.hot_cache_max_items as nat,
                        max_bytes: config.hot_cache_max_bytes,
                        max_entry_bytes: config.hot_cache_max_entry_bytes,
                    },
                )
            } else {
                None
            },
    {
        let hot_cache = if config.hot_cache_enabled {
            Some(
                InProcessHotCache::new(
                    config.hot_cache_max_items,
                    config.hot_cache_max_bytes,
                    config.hot_cache_max_entry_bytes,
                ),
            )
        } else {
            None
        };
        ExternalCache { connected: false, config, hot_cache }
    }

    /// Records whether the store is connected, in the cache and in the metrics.
    pub fn set_connected(&mut self, metrics: &mut Metrics, connected: bool)
        ensures
            final(self).connected == connected,
            final(self).config == old(self).config,
            final(self).hot_cache == old(self).hot_cache,
            final(metrics)@ == (MetricsView {
                external_cache_enabled: if connected {
                    1
                } else {
                    0
                },
                ..old(metrics)@
            }),
    {
        self.connected = connected;
        set_external_cache_enabled(metrics, connected);
    }

    /// Whether the external store is in use.
    pub fn enabled(&self) -> (res: bool)
        ensures
            res == self.connected,
    {
        self.connected
    }

    /// The interval of lock heartbeats: the configured one, at most half the
    /// lock's time to live, and at least 100 ms.
    pub fn lock_heartbeat_ms(&self) -> (ms: u64)
        ensures
            ms == heartbeat_spec(self.config.lock_heartbeat_ms, self.config.lock_ttl_ms),
    {
        let half = self.config.lock_ttl_ms / 2;
        let m = if self.config.lock_heartbeat_ms < half {
            self.config.lock_heartbeat_ms
        } else {
            half
        };
        if m < 100 {
            100
        } else {
            m
        }
    }

    /// The time to live of results whose source version is unknown.
    pub fn unknown_result_ttl_secs(&self) -> (secs: u64)
        ensures
            secs == self.config.unknown_result_ttl_secs,
    {
        self.config.unknown_result_ttl_secs
    }

    /// Looks a result up in the hot cache and records the hit or miss; without
    /// a hot cache, nothing.
    pub fn get_hot_result(&mut self, metrics: &mut Metrics, result_cache_key: &str) -> (res: Option<
        Vec<u8>,
    >)
        requires
            old(self).wf(),
            old(metrics)@.wf(),
        ensures
            final(self).wf(),
            final(self).connected == old(self).connected,
            final(self).config == old(self).config,
            match hot_view(old(self).hot_cache) {
                Some(s) => {
                    &&& hot_view(final(self).hot_cache) == Some(
                        hot_get_spec(s, result_cache_key@).0,
                    )
                    &&& opt_bytes(res) == hot_get_spec(s, result_cache_key@).1
                    &&& final(metrics)@ == if res is Some {
                        after_hit(old(metrics)@, ExternalCacheLayer::HotResult)
                    } else {
                        after_miss(old(metrics)@, ExternalCacheLayer::HotResult)
                    }
                },
                None => {
                    &&& hot_view(final(self).hot_cache) is None
                    &&& res is None
                    &&& final(metrics)@ == old(metrics)@
                },
            },
    {
        match &mut self.hot_cache {
            Some(hot) => {
                let bytes = hot.get(result_cache_key);
                if bytes.is_some() {
                    record_cache_hit(metrics, ExternalCacheLayer::HotResult);
                } else {
                    record_cache_miss(metrics, ExternalCacheLayer::HotResult);
                }
                bytes
            },
            None => None,
        }
    }

    /// Stores a result in the hot cache and records what happened: the store
    /// and its evictions, or a skip of an entry too large; without a hot
    /// cache, nothing.
    pub fn set_hot_result(&mut self, metrics: &mut Metrics, result_cache_key: &str, payload: &[u8])
        requires
            old(self).wf(),
            old(metrics)@.wf(),
        ensures
            final(self).wf(),
            final(self).connected == old(self).connected,
            final(self).config == old(self).config,
            match hot_view(old(self).hot_cache) {
                Some(s) => {
                    &&& hot_view(final(self).hot_cache) == Some(
                        hot_insert_spec(s, result_cache_key@, payload@).0,
                    )
                    &&& final(metrics)@ == hot_result_metrics(
                        old(metrics)@,
                        hot_insert_spec(s, result_cache_key@, payload@).1,
                    )
                },
                None => {
                    &&& hot_view(final(self).hot_cache) is None
                    &&& final(metrics)@ == old(metrics)@
                },
            },
    {
        match &mut self.hot_cache {
            Some(hot) => {
                let outcome = hot.insert(result_cache_key, payload);
                match outcome {
                    HotInsertResult::Stored { bytes, evictions } => {
                        record_cache_store(metrics, ExternalCacheLayer::HotResult, bytes);
                        if evictions > 0 {
                            record_cache_evictions(metrics, ExternalCacheLayer::HotResult, evictions);
                        }
                    },
                    HotInsertResult::Skipped => {
                        record_cache_skip_too_large(
                            metrics,
                            ExternalCacheLayer::HotResult,
                            payload.len(),
                        );
                    },
                }
            },
            None => {},
        }
    }
}

/// The heartbeat interval: `max(min(heartbeat, ttl / 2), 100)`.
pub open spec fn heartbeat_spec(heartbeat_ms: u64, ttl_ms: u64) -> u64 {
    let m = if heartbeat_ms < ttl_ms / 2 {
        heartbeat_ms
    } else {
        (ttl_ms / 2) as u64
    };
    if m < 100 {
        100
    } else {
        m
    }
}

/// The metrics after a hot-cache insert with the given outcome.
pub open spec fn hot_result_metrics(m: MetricsView, outcome: HotInsertResult) -> MetricsView {
    match outcome {
        HotInsertResult::Stored { bytes, evictions } => {
            let stored = after_store(m, ExternalCacheLayer::HotResult, bytes);
            if evictions > 0 {
                after_evictions(stored, ExternalCacheLayer::HotResult, evictions)
            } else {
                stored
            }
        },
        HotInsertResult::Skipped => after_skip(m, ExternalCacheLayer::HotResult),
    }
}

/// A lock is extended before it expires: with a time to live of at least
/// 200 ms (the configured floor is 500 ms), the heartbeat interval is at most
/// half of it, and never below 100 ms.
pub proof fn lemma_heartbeat_within_ttl(heartbeat_ms: u64, ttl_ms: u64)
    requires
        ttl_ms >= 200,
    ensures
        100 <= heartbeat_spec(heartbeat_ms, ttl_ms) <= ttl_ms / 2,
        heartbeat_spec(heartbeat_ms, ttl_ms) < ttl_ms,
{
}

} // verus!
