//! The metrics registry: counters and histograms, owned by one value.
//!
//! Counters wrap at their type's maximum, as atomic counters do.
use super::labels::{CACHE_LAYER_COUNT, PIPELINE_STAGE_COUNT, SCRATCH_BUFFER_COUNT};
use super::latency::{hist_fits, hist_fits_check, CAPACITY_BUCKETS, LATENCY_BUCKETS};
use vstd::prelude::*;

verus! {

/// Every counter and histogram the service keeps.
pub struct Metrics {
    pub request_total: u64,
    pub request_errors: u64,
    pub blocking_tasks_total: u64,
    pub transform_in_flight: usize,
    pub transform_in_flight_peak: usize,
    pub max_blocking_threads_config: usize,
    pub transform_concurrency_config: usize,
    pub blocking_keep_alive_ms_config: u64,
    pub rss_sample_interval_ms_config: u64,
    pub request_latency_ms_hist: Vec<u64>,
    pub queue_wait_ms_hist: Vec<u64>,
    pub processing_ms_hist: Vec<u64>,
    pub rss_bytes: usize,
    pub rss_bytes_peak: usize,
    pub process_threads: usize,
    pub process_threads_peak: usize,
    pub blocking_threads_unique: usize,
    pub external_cache_enabled: usize,
    pub external_cache_memory_bytes: usize,
    pub external_cache_evicted_keys: u64,
    pub cache_hits: Vec<u64>,
    pub cache_misses: Vec<u64>,
    pub cache_errors: Vec<u64>,
    pub cache_stores: Vec<u64>,
    pub cache_skips_too_large: Vec<u64>,
    pub cache_store_bytes_total: Vec<u64>,
    pub cache_evictions: Vec<u64>,
    pub cache_lock_acquired_total: u64,
    pub cache_lock_contended_total: u64,
    pub cache_lock_timeout_total: u64,
    pub cache_lock_errors_total: u64,
    pub cache_lock_release_errors_total: u64,
    pub storage_retries_total: u64,
    pub unknown_version_total: u64,
    pub cache_lock_wait_ms_hist: Vec<u64>,
    pub cache_get_hists: Vec<Vec<u64>>,
    pub cache_set_hists: Vec<Vec<u64>>,
    pub stage_latency_hists: Vec<Vec<u64>>,
    pub capacity_hists: Vec<Vec<u64>>,
}

/// The value of the registry.
pub struct MetricsView {
    pub request_total: u64,
    pub request_errors: u64,
    pub blocking_tasks_total: u64,
    pub transform_in_flight: usize,
    pub transform_in_flight_peak: usize,
    pub max_blocking_threads_config: usize,
    pub transform_concurrency_config: usize,
    pub blocking_keep_alive_ms_config: u64,
    pub rss_sample_interval_ms_config: u64,
    pub request_latency_ms_hist: Seq<u64>,
    pub queue_wait_ms_hist: Seq<u64>,
    pub processing_ms_hist: Seq<u64>,
    pub rss_bytes: usize,
    pub rss_bytes_peak: usize,
    pub process_threads: usize,
    pub process_threads_peak: usize,
    pub blocking_threads_unique: usize,
    pub external_cache_enabled: usize,
    pub external_cache_memory_bytes: usize,
    pub external_cache_evicted_keys: u64,
    pub cache_hits: Seq<u64>,
    pub cache_misses: Seq<u64>,
    pub cache_errors: Seq<u64>,
    pub cache_stores: Seq<u64>,
    pub cache_skips_too_large: Seq<u64>,
    pub cache_store_bytes_total: Seq<u64>,
    pub cache_evictions: Seq<u64>,
    pub cache_lock_acquired_total: u64,
    pub cache_lock_contended_total: u64,
    pub cache_lock_timeout_total: u64,
    pub cache_lock_errors_total: u64,
    pub cache_lock_release_errors_total: u64,
    pub storage_retries_total: u64,
    pub unknown_version_total: u64,
    pub cache_lock_wait_ms_hist: Seq<u64>,
    pub cache_get_hists: Seq<Seq<u64>>,
    pub cache_set_hists: Seq<Seq<u64>>,
    pub stage_latency_hists: Seq<Seq<u64>>,
    pub capacity_hists: Seq<Seq<u64>>,
}

/// The views of a table of histograms.
pub open spec fn rows(v: Seq<Vec<u64>>) -> Seq<Seq<u64>> {
    v.map_values(|r: Vec<u64>| r@)
}

/// A table of `n` histograms of `width` buckets each.
pub open spec fn table_shape(t: Seq<Seq<u64>>, n: nat, width: nat) -> bool {
    &&& t.len() == n
    &&& forall|i: int| 0 <= i < n ==> #[trigger] t[i].len() == width
}

impl View for Metrics {
    type V = MetricsView;

    open spec fn view(&self) -> MetricsView {
        MetricsView {
            request_total: self.request_total,
            request_errors: self.request_errors,
            blocking_tasks_total: self.blocking_tasks_total,
            transform_in_flight: self.transform_in_flight,
            transform_in_flight_peak: self.transform_in_flight_peak,
            max_blocking_threads_config: self.max_blocking_threads_config,
            transform_concurrency_config: self.transform_concurrency_config,
            blocking_keep_alive_ms_config: self.blocking_keep_alive_ms_config,
            rss_sample_interval_ms_config: self.rss_sample_interval_ms_config,
            request_latency_ms_hist: self.request_latency_ms_hist@,
            queue_wait_ms_hist: self.queue_wait_ms_hist@,
            processing_ms_hist: self.processing_ms_hist@,
            rss_bytes: self.rss_bytes,
            rss_bytes_peak: self.rss_bytes_peak,
            process_threads: self.process_threads,
            process_threads_peak: self.process_threads_peak,
            blocking_threads_unique: self.blocking_threads_unique,
            external_cache_enabled: self.external_cache_enabled,
            external_cache_memory_bytes: self.external_cache_memory_bytes,
            external_cache_evicted_keys: self.external_cache_evicted_keys,
            cache_hits: self.cache_hits@,
            cache_misses: self.cache_misses@,
            cache_errors: self.cache_errors@,
            cache_stores: self.cache_stores@,
            cache_skips_too_large: self.cache_skips_too_large@,
            cache_store_bytes_total: self.cache_store_bytes_total@,
            cache_evictions: self.cache_evictions@,
            cache_lock_acquired_total: self.cache_lock_acquired_total,
            cache_lock_contended_total: self.cache_lock_contended_total,
            cache_lock_timeout_total: self.cache_lock_timeout_total,
            cache_lock_errors_total: self.cache_lock_errors_total,
            cache_lock_release_errors_total: self.cache_lock_release_errors_total,
            storage_retries_total: self.storage_retries_total,
            unknown_version_total: self.unknown_version_total,
            cache_lock_wait_ms_hist: self.cache_lock_wait_ms_hist@,
            cache_get_hists: rows(self.cache_get_hists@),
            cache_set_hists: rows(self.cache_set_hists@),
            stage_latency_hists: rows(self.stage_latency_hists@),
            capacity_hists: rows(self.capacity_hists@),
        }
    }
}

impl MetricsView {
    /// Every table has the length its labels need.
    pub open spec fn wf(self) -> bool {
        &&& self.request_latency_ms_hist.len() == LATENCY_BUCKETS
        &&& self.queue_wait_ms_hist.len() == LATENCY_BUCKETS
        &&& self.processing_ms_hist.len() == LATENCY_BUCKETS
        &&& self.cache_lock_wait_ms_hist.len() == LATENCY_BUCKETS
        &&& self.cache_hits.len() == CACHE_LAYER_COUNT
        &&& self.cache_misses.len() == CACHE_LAYER_COUNT
        &&& self.cache_errors.len() == CACHE_LAYER_COUNT
        &&& self.cache_stores.len() == CACHE_LAYER_COUNT
        &&& self.cache_skips_too_large.len() == CACHE_LAYER_COUNT
        &&& self.cache_store_bytes_total.len() == CACHE_LAYER_COUNT
        &&& self.cache_evictions.len() == CACHE_LAYER_COUNT
        &&& table_shape(self.cache_get_hists, CACHE_LAYER_COUNT as nat, LATENCY_BUCKETS as nat)
        &&& table_shape(self.cache_set_hists, CACHE_LAYER_COUNT as nat, LATENCY_BUCKETS as nat)
        &&& table_shape(
            self.stage_latency_hists,
            PIPELINE_STAGE_COUNT as nat,
            LATENCY_BUCKETS as nat,
        )
        &&& table_shape(self.capacity_hists, SCRATCH_BUFFER_COUNT as nat, CAPACITY_BUCKETS as nat)
    }

    /// Every latency histogram's total fits in a `u64`, as exporting it requires.
    pub open spec fn hists_fit(self) -> bool {
        &&& hist_fits(self.request_latency_ms_hist)
        &&& hist_fits(self.queue_wait_ms_hist)
        &&& hist_fits(self.processing_ms_hist)
        &&& hist_fits(self.cache_lock_wait_ms_hist)
        &&& forall|i: int| 0 <= i < self.cache_get_hists.len() ==> #[trigger] hist_fits(
            self.cache_get_hists[i],
        )
        &&& forall|i: int| 0 <= i < self.cache_set_hists.len() ==> #[trigger] hist_fits(
            self.cache_set_hists[i],
        )
        &&& forall|i: int| 0 <= i < self.stage_latency_hists.len() ==> #[trigger] hist_fits(
            self.stage_latency_hists[i],
        )
    }

    /// A registry with every counter and histogram at zero.
    pub open spec fn is_zero(self) -> bool {
        &&& self.wf()
        &&& self.request_total == 0
        &&& self.request_errors == 0
        &&& self.blocking_tasks_total == 0
        &&& self.transform_in_flight == 0
        &&& self.transform_in_flight_peak == 0
        &&& self.cache_lock_acquired_total == 0
        &&& self.storage_retries_total == 0
        &&& self.unknown_version_total == 0
        &&& forall|i: int| 0 <= i < LATENCY_BUCKETS ==> #[trigger] self.request_latency_ms_hist[i]
            == 0
        &&& forall|i: int| 0 <= i < CACHE_LAYER_COUNT ==> #[trigger] self.cache_hits[i] == 0
        &&& forall|i: int| 0 <= i < CACHE_LAYER_COUNT ==> #[trigger] self.cache_misses[i] == 0
    }
}

/// A vector of `n` zeros.
pub fn zeros(n: usize) -> (v: Vec<u64>)
    ensures
        v@.len() == n,
        forall|i: int| 0 <= i < n ==> #[trigger] v@[i] == 0,
{
    let mut v: Vec<u64> = Vec::new();
    let mut i: usize = 0;
    while i < n
        invariant
            i <= n,
            v@.len() == i,
            forall|k: int| 0 <= k < i ==> #[trigger] v@[k] == 0,
        decreases n - i,
    {
        v.push(0);
        i = i + 1;
    }
    v
}

/// A table of `n` histograms of `width` zero buckets.
pub fn zero_table(n: usize, width: usize) -> (t: Vec<Vec<u64>>)
    ensures
        table_shape(rows(t@), n as nat, width as nat),
        forall|i: int, j: int| 0 <= i < n && 0 <= j < width ==> #[trigger] rows(t@)[i][j] == 0,
{
    let mut t: Vec<Vec<u64>> = Vec::new();
    let mut i: usize = 0;
    while i < n
        invariant
            i <= n,
            t@.len() == i,
            forall|k: int| 0 <= k < i ==> #[trigger] t@[k]@.len() == width,
            forall|k: int, j: int| 0 <= k < i && 0 <= j < width ==> #[trigger] t@[k]@[j] == 0,
        decreases n - i,
    {
        t.push(zeros(width));
        i = i + 1;
    }
    t
}

/// Decides `hist_fits` for every row of a table.
pub fn table_fits(t: &Vec<Vec<u64>>) -> (res: bool)
    ensures
        res == (forall|i: int| 0 <= i < t@.len() ==> #[trigger] hist_fits(rows(t@)[i])),
{
    let mut i: usize = 0;
    while i < t.len()
        invariant
            i <= t@.len(),
            forall|k: int| 0 <= k < i ==> #[trigger] hist_fits(rows(t@)[k]),
        decreases t.len() - i,
    {
        assert(rows(t@)[i as int] == t@[i as int]@);
        if !hist_fits_check(&t[i]) {
            assert(!hist_fits(rows(t@)[i as int]));
            return false;
        }
        i = i + 1;
    }
    true
}

impl Metrics {
    /// Whether every latency histogram can be exported: its total fits in a `u64`.
    pub fn hists_fit(&self) -> (res: bool)
        ensures
            res == self@.hists_fit(),
    {
        assert(rows(self.cache_get_hists@).len() == self.cache_get_hists@.len());
        assert(rows(self.cache_set_hists@).len() == self.cache_set_hists@.len());
        assert(rows(self.stage_latency_hists@).len() == self.stage_latency_hists@.len());
        let a = hist_fits_check(&self.request_latency_ms_hist);
        let b = hist_fits_check(&self.queue_wait_ms_hist);
        let c = hist_fits_check(&self.processing_ms_hist);
        let d = hist_fits_check(&self.cache_lock_wait_ms_hist);
        let e = table_fits(&self.cache_get_hists);
        let f = table_fits(&self.cache_set_hists);
        let g = table_fits(&self.stage_latency_hists);
        assert(self@.cache_get_hists == rows(self.cache_get_hists@));
        assert(self@.cache_set_hists == rows(self.cache_set_hists@));
        assert(self@.stage_latency_hists == rows(self.stage_latency_hists@));
        assert(e == (forall|i: int|
            0 <= i < self@.cache_get_hists.len() ==> #[trigger] hist_fits(
                self@.cache_get_hists[i],
            )));
        assert(f == (forall|i: int|
            0 <= i < self@.cache_set_hists.len() ==> #[trigger] hist_fits(
                self@.cache_set_hists[i],
            )));
        assert(g == (forall|i: int|
            0 <= i < self@.stage_latency_hists.len() ==> #[trigger] hist_fits(
                self@.stage_latency_hists[i],
            )));
        a && b && c && d && e && f && g
    }

    /// A registry with every counter and histogram at zero.
    pub fn new() -> (m: Self)
        ensures
            m@.is_zero(),
    {
        Metrics {
            request_total: 0,
            request_errors: 0,
            blocking_tasks_total: 0,
            transform_in_flight: 0,
            transform_in_flight_peak: 0,
            max_blocking_threads_config: 0,
            transform_concurrency_config: 0,
            blocking_keep_alive_ms_config: 0,
            rss_sample_interval_ms_config: 0,
            request_latency_ms_hist: zeros(LATENCY_BUCKETS),
            queue_wait_ms_hist: zeros(LATENCY_BUCKETS),
            processing_ms_hist: zeros(LATENCY_BUCKETS),
            rss_bytes: 0,
            rss_bytes_peak: 0,
            process_threads: 0,
            process_threads_peak: 0,
            blocking_threads_unique: 0,
            external_cache_enabled: 0,
            external_cache_memory_bytes: 0,
            external_cache_evicted_keys: 0,
            cache_hits: zeros(CACHE_LAYER_COUNT),
            cache_misses: zeros(CACHE_LAYER_COUNT),
            cache_errors: zeros(CACHE_LAYER_COUNT),
            cache_stores: zeros(CACHE_LAYER_COUNT),
            cache_skips_too_large: zeros(CACHE_LAYER_COUNT),
            cache_store_bytes_total: zeros(CACHE_LAYER_COUNT),
            cache_evictions: zeros(CACHE_LAYER_COUNT),
            cache_lock_acquired_total: 0,
            cache_lock_contended_total: 0,
            cache_lock_timeout_total: 0,
            cache_lock_errors_total: 0,
            cache_lock_release_errors_total: 0,
            storage_retries_total: 0,
            unknown_version_total: 0,
            cache_lock_wait_ms_hist: zeros(LATENCY_BUCKETS),
            cache_get_hists: zero_table(CACHE_LAYER_COUNT, LATENCY_BUCKETS),
            cache_set_hists: zero_table(CACHE_LAYER_COUNT, LATENCY_BUCKETS),
            stage_latency_hists: zero_table(PIPELINE_STAGE_COUNT, LATENCY_BUCKETS),
            capacity_hists: zero_table(SCRATCH_BUFFER_COUNT, CAPACITY_BUCKETS),
        }
    }
}

/// Raises a peak to `value` when `value` exceeds it.
pub fn update_peak(peak: &mut usize, value: usize)
    ensures
        *final(peak) == if value > *old(peak) {
            value
        } else {
            *old(peak)
        },
{
    if value > *peak {
        *peak = value;
    }
}

} // verus!
