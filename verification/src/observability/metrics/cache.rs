//! Cache metrics: hits, misses, stores and locks per cache layer, and their export.
use super::labels::{ExternalCacheLayer, CACHE_LAYER_COUNT};
use super::latency::{
    append_latency_percentiles, bump, bump_counter, hist_fits, hist_record, latency_bucket_spec,
    latency_percentiles_text, line, push_line, push_quantile_lines, quantile_lines,
    record_hist_slice,
};
use crate::text::push_str;
use super::registry::{rows, table_shape, Metrics, MetricsView};
use vstd::prelude::*;

verus! {

/// `u64::wrapping_add`.
pub open spec fn wrap_add(a: u64, b: u64) -> u64 {
    if a + b > u64::MAX {
        (a + b - u64::MAX - 1) as u64
    } else {
        (a + b) as u64
    }
}

/// The registry after a hit in `layer`.
pub open spec fn after_hit(m: MetricsView, layer: ExternalCacheLayer) -> MetricsView {
    MetricsView {
        cache_hits: m.cache_hits.update(layer.index_spec(), bump(m.cache_hits[layer.index_spec()])),
        ..m
    }
}

/// The registry after a miss in `layer`.
pub open spec fn after_miss(m: MetricsView, layer: ExternalCacheLayer) -> MetricsView {
    MetricsView {
        cache_misses: m.cache_misses.update(
            layer.index_spec(),
            bump(m.cache_misses[layer.index_spec()]),
        ),
        ..m
    }
}

/// The registry after an entry of `bytes` bytes was stored in `layer`.
pub open spec fn after_store(m: MetricsView, layer: ExternalCacheLayer, bytes: usize) -> MetricsView {
    MetricsView {
        cache_stores: m.cache_stores.update(
            layer.index_spec(),
            bump(m.cache_stores[layer.index_spec()]),
        ),
        cache_store_bytes_total: m.cache_store_bytes_total.update(
            layer.index_spec(),
            wrap_add(m.cache_store_bytes_total[layer.index_spec()], bytes as u64),
        ),
        ..m
    }
}

/// The registry after `count` evictions from `layer`.
pub open spec fn after_evictions(m: MetricsView, layer: ExternalCacheLayer, count: u64) -> MetricsView {
    MetricsView {
        cache_evictions: m.cache_evictions.update(
            layer.index_spec(),
            wrap_add(m.cache_evictions[layer.index_spec()], count),
        ),
        ..m
    }
}

/// The registry after an entry too large for `layer` was skipped.
pub open spec fn after_skip(m: MetricsView, layer: ExternalCacheLayer) -> MetricsView {
    MetricsView {
        cache_skips_too_large: m.cache_skips_too_large.update(
            layer.index_spec(),
            bump(m.cache_skips_too_large[layer.index_spec()]),
        ),
        ..m
    }
}

/// The registry after an operation error in `layer`.
pub open spec fn after_error(m: MetricsView, layer: ExternalCacheLayer) -> MetricsView {
    MetricsView {
        cache_errors: m.cache_errors.update(
            layer.index_spec(),
            bump(m.cache_errors[layer.index_spec()]),
        ),
        ..m
    }
}

/// The registry after a get in `layer` that took `millis`.
pub open spec fn after_get_latency(m: MetricsView, layer: ExternalCacheLayer, millis: u64) -> MetricsView {
    MetricsView {
        cache_get_hists: m.cache_get_hists.update(
            layer.index_spec(),
            hist_record(m.cache_get_hists[layer.index_spec()], latency_bucket_spec(millis as nat)),
        ),
        ..m
    }
}

/// The registry after a set in `layer` that took `millis`.
pub open spec fn after_set_latency(m: MetricsView, layer: ExternalCacheLayer, millis: u64) -> MetricsView {
    MetricsView {
        cache_set_hists: m.cache_set_hists.update(
            layer.index_spec(),
            hist_record(m.cache_set_hists[layer.index_spec()], latency_bucket_spec(millis as nat)),
        ),
        ..m
    }
}

/// The registry after a lock acquired in `millis`.
pub open spec fn after_lock_acquired(m: MetricsView, millis: u64) -> MetricsView {
    MetricsView {
        cache_lock_acquired_total: bump(m.cache_lock_acquired_total),
        cache_lock_wait_ms_hist: hist_record(
            m.cache_lock_wait_ms_hist,
            latency_bucket_spec(millis as nat),
        ),
        ..m
    }
}

/// The registry after a lock found held by another request.
pub open spec fn after_lock_contended(m: MetricsView) -> MetricsView {
    MetricsView { cache_lock_contended_total: bump(m.cache_lock_contended_total), ..m }
}

/// The registry after a lock wait that timed out after `millis`.
pub open spec fn after_lock_timeout(m: MetricsView, millis: u64) -> MetricsView {
    MetricsView {
        cache_lock_timeout_total: bump(m.cache_lock_timeout_total),
        cache_lock_wait_ms_hist: hist_record(
            m.cache_lock_wait_ms_hist,
            latency_bucket_spec(millis as nat),
        ),
        ..m
    }
}

/// The registry after a lock wait of `millis`.
pub open spec fn after_lock_wait(m: MetricsView, millis: u64) -> MetricsView {
    MetricsView {
        cache_lock_wait_ms_hist: hist_record(
            m.cache_lock_wait_ms_hist,
            latency_bucket_spec(millis as nat),
        ),
        ..m
    }
}

/// The registry after a lock operation error.
pub open spec fn after_lock_error(m: MetricsView) -> MetricsView {
    MetricsView { cache_lock_errors_total: bump(m.cache_lock_errors_total), ..m }
}

/// The registry after a lock release error.
pub open spec fn after_release_error(m: MetricsView) -> MetricsView {
    MetricsView { cache_lock_release_errors_total: bump(m.cache_lock_release_errors_total), ..m }
}

/// Adds to a counter, wrapping as an atomic counter does.
pub fn add_counter(a: u64, b: u64) -> (c: u64)
    ensures
        c == wrap_add(a, b),
{
    if b > u64::MAX - a {
        b - (u64::MAX - a) - 1
    } else {
        a + b
    }
}

/// Adds one to the counter at `i`.
pub fn bump_at(v: &mut Vec<u64>, i: usize)
    requires
        i < old(v)@.len(),
    ensures
        final(v)@ == old(v)@.update(i as int, bump(old(v)@[i as int])),
{
    let x = bump_counter(v[i]);
    v.set(i, x);
}

/// Adds `n` to the counter at `i`.
pub fn add_at(v: &mut Vec<u64>, i: usize, n: u64)
    requires
        i < old(v)@.len(),
    ensures
        final(v)@ == old(v)@.update(i as int, wrap_add(old(v)@[i as int], n)),
{
    let x = add_counter(v[i], n);
    v.set(i, x);
}

/// Records one latency sample in the histogram at row `i` of a table.
pub fn record_in_row(table: &mut Vec<Vec<u64>>, i: usize, millis: u64)
    requires
        i < old(table)@.len(),
    ensures
        rows(final(table)@) == rows(old(table)@).update(
            i as int,
            hist_record(rows(old(table)@)[i as int], latency_bucket_spec(millis as nat)),
        ),
{
    let mut row: Vec<u64> = Vec::new();
    table.set_and_swap(i, &mut row);
    record_hist_slice(&mut row, millis);
    table.set_and_swap(i, &mut row);
    assert(rows(table@) =~= rows(old(table)@).update(
        i as int,
        hist_record(rows(old(table)@)[i as int], latency_bucket_spec(millis as nat)),
    ));
}

/// Sets whether the external cache (redis/dragonfly) is connected.
pub fn set_external_cache_enabled(metrics: &mut Metrics, enabled: bool)
    ensures
        final(metrics)@ == (MetricsView {
            external_cache_enabled: if enabled {
                1
            } else {
                0
            },
            ..old(metrics)@
        }),
{
    metrics.external_cache_enabled = if enabled {
        1
    } else {
        0
    };
}

/// Updates the external cache's memory and eviction figures.
pub fn set_external_cache_stats(metrics: &mut Metrics, memory_bytes: usize, evicted_keys: u64)
    ensures
        final(metrics)@ == (MetricsView {
            external_cache_memory_bytes: memory_bytes,
            external_cache_evicted_keys: evicted_keys,
            ..old(metrics)@
        }),
{
    metrics.external_cache_memory_bytes = memory_bytes;
    metrics.external_cache_evicted_keys = evicted_keys;
}

/// Records a cache hit for a layer.
pub fn record_cache_hit(metrics: &mut Metrics, layer: ExternalCacheLayer)
    requires
        old(metrics)@.wf(),
    ensures
        final(metrics)@ == (MetricsView {
            cache_hits: old(metrics)@.cache_hits.update(
                layer.index_spec(),
                bump(old(metrics)@.cache_hits[layer.index_spec()]),
            ),
            ..old(metrics)@
        }),
{
    bump_at(&mut metrics.cache_hits, layer.as_index());
}

/// Records a cache miss for a layer.
pub fn record_cache_miss(metrics: &mut Metrics, layer: ExternalCacheLayer)
    requires
        old(metrics)@.wf(),
    ensures
        final(metrics)@ == (MetricsView {
            cache_misses: old(metrics)@.cache_misses.update(
                layer.index_spec(),
                bump(old(metrics)@.cache_misses[layer.index_spec()]),
            ),
            ..old(metrics)@
        }),
{
    bump_at(&mut metrics.cache_misses, layer.as_index());
}

/// Records a cache operation error for a layer.
pub fn record_cache_error(metrics: &mut Metrics, layer: ExternalCacheLayer)
    requires
        old(metrics)@.wf(),
    ensures
        final(metrics)@ == (MetricsView {
            cache_errors: old(metrics)@.cache_errors.update(
                layer.index_spec(),
                bump(old(metrics)@.cache_errors[layer.index_spec()]),
            ),
            ..old(metrics)@
        }),
{
    bump_at(&mut metrics.cache_errors, layer.as_index());
}

/// Records a stored entry and its size for a layer.
pub fn record_cache_store(metrics: &mut Metrics, layer: ExternalCacheLayer, bytes: usize)
    requires
        old(metrics)@.wf(),
    ensures
        final(metrics)@ == (MetricsView {
            cache_stores: old(metrics)@.cache_stores.update(
                layer.index_spec(),
                bump(old(metrics)@.cache_stores[layer.index_spec()]),
            ),
            cache_store_bytes_total: old(metrics)@.cache_store_bytes_total.update(
                layer.index_spec(),
                wrap_add(old(metrics)@.cache_store_bytes_total[layer.index_spec()], bytes as u64),
            ),
            ..old(metrics)@
        }),
{
    bump_at(&mut metrics.cache_stores, layer.as_index());
    add_at(&mut metrics.cache_store_bytes_total, layer.as_index(), bytes as u64);
}

/// Records evictions for a layer.
pub fn record_cache_evictions(metrics: &mut Metrics, layer: ExternalCacheLayer, count: u64)
    requires
        old(metrics)@.wf(),
    ensures
        final(metrics)@ == (MetricsView {
            cache_evictions: old(metrics)@.cache_evictions.update(
                layer.index_spec(),
                wrap_add(old(metrics)@.cache_evictions[layer.index_spec()], count),
            ),
            ..old(metrics)@
        }),
{
    add_at(&mut metrics.cache_evictions, layer.as_index(), count);
}

/// Records that an entry was not stored because it exceeded the size limit.
pub fn record_cache_skip_too_large(metrics: &mut Metrics, layer: ExternalCacheLayer, _bytes: usize)
    requires
        old(metrics)@.wf(),
    ensures
        final(metrics)@ == (MetricsView {
            cache_skips_too_large: old(metrics)@.cache_skips_too_large.update(
                layer.index_spec(),
                bump(old(metrics)@.cache_skips_too_large[layer.index_spec()]),
            ),
            ..old(metrics)@
        }),
{
    bump_at(&mut metrics.cache_skips_too_large, layer.as_index());
}

/// Records the latency of a get for a layer.
pub fn record_cache_get_latency(metrics: &mut Metrics, layer: ExternalCacheLayer, millis: u64)
    requires
        old(metrics)@.wf(),
    ensures
        final(metrics)@ == (MetricsView {
            cache_get_hists: old(metrics)@.cache_get_hists.update(
                layer.index_spec(),
                hist_record(
                    old(metrics)@.cache_get_hists[layer.index_spec()],
                    latency_bucket_spec(millis as nat),
                ),
            ),
            ..old(metrics)@
        }),
{
    record_in_row(&mut metrics.cache_get_hists, layer.as_index(), millis);
}

/// Records the latency of a set for a layer.
pub fn record_cache_set_latency(metrics: &mut Metrics, layer: ExternalCacheLayer, millis: u64)
    requires
        old(metrics)@.wf(),
    ensures
        final(metrics)@ == (MetricsView {
            cache_set_hists: old(metrics)@.cache_set_hists.update(
                layer.index_spec(),
                hist_record(
                    old(metrics)@.cache_set_hists[layer.index_spec()],
                    latency_bucket_spec(millis as nat),
                ),
            ),
            ..old(metrics)@
        }),
{
    record_in_row(&mut metrics.cache_set_hists, layer.as_index(), millis);
}

/// Records an acquired lock and how long acquiring it took.
pub fn record_cache_lock_acquired(metrics: &mut Metrics, wait_millis: u64)
    ensures
        final(metrics)@ == (MetricsView {
            cache_lock_acquired_total: bump(old(metrics)@.cache_lock_acquired_total),
            cache_lock_wait_ms_hist: hist_record(
                old(metrics)@.cache_lock_wait_ms_hist,
                latency_bucket_spec(wait_millis as nat),
            ),
            ..old(metrics)@
        }),
{
    metrics.cache_lock_acquired_total = bump_counter(metrics.cache_lock_acquired_total);
    record_hist_slice(&mut metrics.cache_lock_wait_ms_hist, wait_millis);
}

/// Records that a lock was already held by another request.
pub fn record_cache_lock_contended(metrics: &mut Metrics)
    ensures
        final(metrics)@ == (MetricsView {
            cache_lock_contended_total: bump(old(metrics)@.cache_lock_contended_total),
            ..old(metrics)@
        }),
{
    metrics.cache_lock_contended_total = bump_counter(metrics.cache_lock_contended_total);
}

/// Records a lock wait that timed out, and how long it waited.
pub fn record_cache_lock_timeout(metrics: &mut Metrics, wait_millis: u64)
    ensures
        final(metrics)@ == (MetricsView {
            cache_lock_timeout_total: bump(old(metrics)@.cache_lock_timeout_total),
            cache_lock_wait_ms_hist: hist_record(
                old(metrics)@.cache_lock_wait_ms_hist,
                latency_bucket_spec(wait_millis as nat),
            ),
            ..old(metrics)@
        }),
{
    metrics.cache_lock_timeout_total = bump_counter(metrics.cache_lock_timeout_total);
    record_hist_slice(&mut metrics.cache_lock_wait_ms_hist, wait_millis);
}

/// Records how long a lock wait took, whatever its outcome.
pub fn record_cache_lock_wait(metrics: &mut Metrics, wait_millis: u64)
    ensures
        final(metrics)@ == (MetricsView {
            cache_lock_wait_ms_hist: hist_record(
                old(metrics)@.cache_lock_wait_ms_hist,
                latency_bucket_spec(wait_millis as nat),
            ),
            ..old(metrics)@
        }),
{
    record_hist_slice(&mut metrics.cache_lock_wait_ms_hist, wait_millis);
}

/// Records a lock operation error.
pub fn record_cache_lock_error(metrics: &mut Metrics)
    ensures
        final(metrics)@ == (MetricsView {
            cache_lock_errors_total: bump(old(metrics)@.cache_lock_errors_total),
            ..old(metrics)@
        }),
{
    metrics.cache_lock_errors_total = bump_counter(metrics.cache_lock_errors_total);
}

/// Records a lock release error.
pub fn record_cache_lock_release_error(metrics: &mut Metrics)
    ensures
        final(metrics)@ == (MetricsView {
            cache_lock_release_errors_total: bump(old(metrics)@.cache_lock_release_errors_total),
            ..old(metrics)@
        }),
{
    metrics.cache_lock_release_errors_total = bump_counter(
        metrics.cache_lock_release_errors_total,
    );
}

/// Records an object storage retry.
pub fn record_storage_retry(metrics: &mut Metrics)
    ensures
        final(metrics)@ == (MetricsView {
            storage_retries_total: bump(old(metrics)@.storage_retries_total),
            ..old(metrics)@
        }),
{
    metrics.storage_retries_total = bump_counter(metrics.storage_retries_total);
}

/// Records a version lookup that found no version.
pub fn record_unknown_version(metrics: &mut Metrics)
    ensures
        final(metrics)@ == (MetricsView {
            unknown_version_total: bump(old(metrics)@.unknown_version_total),
            ..old(metrics)@
        }),
{
    metrics.unknown_version_total = bump_counter(metrics.unknown_version_total);
}

/// The external cache summary as samples.
pub open spec fn cache_summary_text(m: MetricsView) -> Seq<char> {
    line("imagik_external_cache_enabled "@, m.external_cache_enabled as nat) + line(
        "imagik_external_cache_memory_bytes "@,
        m.external_cache_memory_bytes as nat,
    ) + line("imagik_external_cache_evicted_keys_total "@, m.external_cache_evicted_keys as nat)
}

/// Appends the external cache summary.
pub fn append_cache_summary_metrics(out: &mut String, metrics: &Metrics)
    ensures
        final(out)@ == old(out)@ + cache_summary_text(metrics@),
{
    let ghost start = out@;
    push_line(out, "imagik_external_cache_enabled ", metrics.external_cache_enabled as u64);
    push_line(
        out,
        "imagik_external_cache_memory_bytes ",
        metrics.external_cache_memory_bytes as u64,
    );
    push_line(out, "imagik_external_cache_evicted_keys_total ", metrics.external_cache_evicted_keys);
    assert(out@ =~= start + cache_summary_text(metrics@));
}

/// Appends the lock wait latency percentiles.
pub fn append_cache_lock_latency_metrics(out: &mut String, metrics: &Metrics)
    requires
        metrics@.wf(),
        metrics@.hists_fit(),
    ensures
        final(out)@ == old(out)@ + latency_percentiles_text(
            "cache_lock_wait"@,
            metrics@.cache_lock_wait_ms_hist,
        ),
{
    append_latency_percentiles(out, "cache_lock_wait", &metrics.cache_lock_wait_ms_hist);
}

/// The head of a cache latency sample.
pub open spec fn cache_latency_head(layer: ExternalCacheLayer, op: Seq<char>) -> Seq<char> {
    "imagik_cache_latency_ms{layer=\""@ + layer.name_spec() + "\",op=\""@ + op
        + "\",quantile=\""@
}

/// Appends the latency percentiles of one operation on one layer.
pub fn append_cache_latency_percentiles(
    out: &mut String,
    layer: ExternalCacheLayer,
    hists: &Vec<Vec<u64>>,
    op: &str,
)
    requires
        layer.index_spec() < hists@.len() ==> hist_fits(hists@[layer.index_spec()]@),
    ensures
        final(out)@ == old(out)@ + (if layer.index_spec() < hists@.len() {
            quantile_lines(cache_latency_head(layer, op@), hists@[layer.index_spec()]@)
        } else {
            Seq::empty()
        }),
{
    let idx = layer.as_index();
    if idx >= hists.len() {
        assert(out@ =~= old(out)@ + Seq::<char>::empty());
        return;
    }
    let mut head = String::new();
    push_str(&mut head, "imagik_cache_latency_ms{layer=\"");
    push_str(&mut head, layer.as_name());
    push_str(&mut head, "\",op=\"");
    push_str(&mut head, op);
    push_str(&mut head, "\",quantile=\"");
    assert(head@ =~= cache_latency_head(layer, op@));
    push_quantile_lines(out, &head, &hists[idx]);
}

/// A per-layer sample: `<head><layer><tail><value>`.
pub open spec fn layer_line(
    head: Seq<char>,
    layer: ExternalCacheLayer,
    tail: Seq<char>,
    v: u64,
) -> Seq<char> {
    line(head + layer.name_spec() + tail, v as nat)
}

/// Appends a per-layer sample.
fn push_layer_line(
    out: &mut String,
    head: &str,
    layer: ExternalCacheLayer,
    tail: &str,
    v: u64,
)
    ensures
        final(out)@ == old(out)@ + layer_line(head@, layer, tail@, v),
{
    let mut prefix = String::new();
    push_str(&mut prefix, head);
    push_str(&mut prefix, layer.as_name());
    push_str(&mut prefix, tail);
    assert(prefix@ =~= head@ + layer.name_spec() + tail@);
    push_line(out, prefix.as_str(), v);
}

/// The counts of one cache layer as samples.
#[verifier::opaque]
pub open spec fn layer_counts_text(m: MetricsView, layer: ExternalCacheLayer) -> Seq<char> {
    let i = layer.index_spec();
    layer_line(
        "imagik_cache_ops_total{layer=\""@,
        layer,
        "\",op=\"get\",result=\"hit\"} "@,
        m.cache_hits[i],
    ) + layer_line(
        "imagik_cache_ops_total{layer=\""@,
        layer,
        "\",op=\"get\",result=\"miss\"} "@,
        m.cache_misses[i],
    ) + layer_line(
        "imagik_cache_ops_total{layer=\""@,
        layer,
        "\",op=\"set\",result=\"stored\"} "@,
        m.cache_stores[i],
    ) + layer_line(
        "imagik_cache_ops_total{layer=\""@,
        layer,
        "\",op=\"set\",result=\"skipped_too_large\"} "@,
        m.cache_skips_too_large[i],
    ) + layer_line("imagik_cache_errors_total{layer=\""@, layer, "\"} "@, m.cache_errors[i])
        + layer_line(
        "imagik_cache_store_bytes_total{layer=\""@,
        layer,
        "\"} "@,
        m.cache_store_bytes_total[i],
    ) + layer_line("imagik_cache_evictions_total{layer=\""@, layer, "\"} "@, m.cache_evictions[i])
}

/// The get and set latency percentiles of one cache layer.
#[verifier::opaque]
pub open spec fn layer_latency_text(m: MetricsView, layer: ExternalCacheLayer) -> Seq<char> {
    let i = layer.index_spec();
    quantile_lines(cache_latency_head(layer, "get"@), m.cache_get_hists[i]) + quantile_lines(
        cache_latency_head(layer, "set"@),
        m.cache_set_hists[i],
    )
}

/// The samples of one cache layer: its counts, then its latency percentiles.
pub open spec fn layer_text(m: MetricsView, layer: ExternalCacheLayer) -> Seq<char> {
    layer_counts_text(m, layer) + layer_latency_text(m, layer)
}

/// The samples of the first `k` cache layers.
pub open spec fn layers_text(m: MetricsView, k: int) -> Seq<char>
    decreases k,
{
    if k <= 0 {
        Seq::empty()
    } else {
        layers_text(m, k - 1) + layer_text(m, ExternalCacheLayer::at(k - 1))
    }
}

/// The lock outcome totals as samples.
pub open spec fn lock_totals_text(m: MetricsView) -> Seq<char> {
    line("imagik_cache_lock_total{result=\"acquired\"} "@, m.cache_lock_acquired_total as nat)
        + line(
        "imagik_cache_lock_total{result=\"contended\"} "@,
        m.cache_lock_contended_total as nat,
    ) + line("imagik_cache_lock_total{result=\"timeout\"} "@, m.cache_lock_timeout_total as nat)
        + line("imagik_cache_lock_total{result=\"error\"} "@, m.cache_lock_errors_total as nat)
        + line(
        "imagik_cache_lock_total{result=\"release_error\"} "@,
        m.cache_lock_release_errors_total as nat,
    )
}

/// Every cache sample: each layer in order, then the lock totals.
pub open spec fn cache_metrics_text(m: MetricsView) -> Seq<char> {
    layers_text(m, CACHE_LAYER_COUNT as int) + lock_totals_text(m)
}

/// The layer at a position, in declaration order.
fn layer_at(i: usize) -> (l: ExternalCacheLayer)
    ensures
        l == ExternalCacheLayer::at(i as int),
{
    if i == 0 {
        ExternalCacheLayer::Source
    } else if i == 1 {
        ExternalCacheLayer::Result
    } else if i == 2 {
        ExternalCacheLayer::Version
    } else {
        ExternalCacheLayer::HotResult
    }
}

/// Appends the counts of one layer.
#[verifier::rlimit(30)]
fn append_layer_counts(out: &mut String, metrics: &Metrics, layer: ExternalCacheLayer)
    requires
        metrics@.wf(),
    ensures
        final(out)@ == old(out)@ + layer_counts_text(metrics@, layer),
{
    let ghost s0 = out@;
    let idx = layer.as_index();
    push_layer_line(
        out,
        "imagik_cache_ops_total{layer=\"",
        layer,
        "\",op=\"get\",result=\"hit\"} ",
        metrics.cache_hits[idx],
    );
    push_layer_line(
        out,
        "imagik_cache_ops_total{layer=\"",
        layer,
        "\",op=\"get\",result=\"miss\"} ",
        metrics.cache_misses[idx],
    );
    push_layer_line(
        out,
        "imagik_cache_ops_total{layer=\"",
        layer,
        "\",op=\"set\",result=\"stored\"} ",
        metrics.cache_stores[idx],
    );
    push_layer_line(
        out,
        "imagik_cache_ops_total{layer=\"",
        layer,
        "\",op=\"set\",result=\"skipped_too_large\"} ",
        metrics.cache_skips_too_large[idx],
    );
    push_layer_line(
        out,
        "imagik_cache_errors_total{layer=\"",
        layer,
        "\"} ",
        metrics.cache_errors[idx],
    );
    push_layer_line(
        out,
        "imagik_cache_store_bytes_total{layer=\"",
        layer,
        "\"} ",
        metrics.cache_store_bytes_total[idx],
    );
    push_layer_line(
        out,
        "imagik_cache_evictions_total{layer=\"",
        layer,
        "\"} ",
        metrics.cache_evictions[idx],
    );
    proof {
        reveal(layer_counts_text);
    }
    assert(out@ =~= s0 + layer_counts_text(metrics@, layer));
}

/// Appends the samples of one layer.
fn append_layer(out: &mut String, metrics: &Metrics, layer: ExternalCacheLayer)
    requires
        metrics@.wf(),
        metrics@.hists_fit(),
    ensures
        final(out)@ == old(out)@ + layer_text(metrics@, layer),
{
    let ghost start = out@;
    let idx = layer.as_index();
    append_layer_counts(out, metrics, layer);
    let ghost mid = out@;
    assert(rows(metrics.cache_get_hists@)[idx as int] == metrics.cache_get_hists@[idx as int]@);
    assert(rows(metrics.cache_set_hists@)[idx as int] == metrics.cache_set_hists@[idx as int]@);
    append_cache_latency_percentiles(out, layer, &metrics.cache_get_hists, "get");
    append_cache_latency_percentiles(out, layer, &metrics.cache_set_hists, "set");
    proof {
        reveal(layer_latency_text);
    }
    assert(out@ =~= mid + layer_latency_text(metrics@, layer));
    assert(out@ =~= start + layer_text(metrics@, layer));
}

/// Appends every cache sample: each layer's counts and latency percentiles, then
/// the lock outcome totals.
pub fn append_cache_metrics(out: &mut String, metrics: &Metrics)
    requires
        metrics@.wf(),
        metrics@.hists_fit(),
    ensures
        final(out)@ == old(out)@ + cache_metrics_text(metrics@),
{
    let ghost start = out@;
    let mut i: usize = 0;
    while i < CACHE_LAYER_COUNT
        invariant
            i <= CACHE_LAYER_COUNT,
            metrics@.wf(),
            metrics@.hists_fit(),
            out@ == start + layers_text(metrics@, i as int),
        decreases CACHE_LAYER_COUNT - i,
    {
        append_layer(out, metrics, layer_at(i));
        i = i + 1;
        assert(out@ =~= start + layers_text(metrics@, i as int));
    }
    let ghost mid = out@;
    push_line(out, "imagik_cache_lock_total{result=\"acquired\"} ", metrics.cache_lock_acquired_total);
    push_line(
        out,
        "imagik_cache_lock_total{result=\"contended\"} ",
        metrics.cache_lock_contended_total,
    );
    push_line(out, "imagik_cache_lock_total{result=\"timeout\"} ", metrics.cache_lock_timeout_total);
    push_line(out, "imagik_cache_lock_total{result=\"error\"} ", metrics.cache_lock_errors_total);
    push_line(
        out,
        "imagik_cache_lock_total{result=\"release_error\"} ",
        metrics.cache_lock_release_errors_total,
    );
    assert(out@ =~= mid + lock_totals_text(metrics@));
    assert(out@ =~= start + cache_metrics_text(metrics@));
}

/// The storage totals as samples.
pub open spec fn storage_text(m: MetricsView) -> Seq<char> {
    line("imagik_storage_retries_total "@, m.storage_retries_total as nat) + line(
        "imagik_unknown_version_total "@,
        m.unknown_version_total as nat,
    )
}

/// Appends the storage retry and unknown version totals.
pub fn append_storage_metrics(out: &mut String, metrics: &Metrics)
    ensures
        final(out)@ == old(out)@ + storage_text(metrics@),
{
    let ghost start = out@;
    push_line(out, "imagik_storage_retries_total ", metrics.storage_retries_total);
    push_line(out, "imagik_unknown_version_total ", metrics.unknown_version_total);
    assert(out@ =~= start + storage_text(metrics@));
}

} // verus!
