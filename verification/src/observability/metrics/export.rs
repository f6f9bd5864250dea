//! Prometheus text exposition of the registry.
use super::cache::{
    append_cache_lock_latency_metrics, append_cache_metrics, append_cache_summary_metrics,
    append_storage_metrics, cache_metrics_text, cache_summary_text, storage_text,
};
use super::labels::{PIPELINE_STAGE_COUNT, SCRATCH_BUFFER_COUNT};
use super::latency::{latency_percentiles_text, line, push_line};
use super::pipeline::{append_stage_latency_metrics, stage_latency_text};
use super::registry::{Metrics, MetricsView};
use super::request::{
    append_request_latency_metrics, lemma_requests_counted, request_latency_text,
    requests_finished,
};
use super::system::{
    append_capacity_metrics, append_process_metrics, append_runtime_config_metrics,
    capacity_text, process_text, runtime_config_text,
};
use vstd::prelude::*;

verus! {

/// The request totals and in-flight figures as samples.
pub open spec fn request_totals_text(m: MetricsView) -> Seq<char> {
    line("imagik_requests_total "@, m.request_total as nat) + line(
        "imagik_requests_errors_total "@,
        m.request_errors as nat,
    ) + line("imagik_blocking_tasks_total "@, m.blocking_tasks_total as nat) + line(
        "imagik_transform_in_flight "@,
        m.transform_in_flight as nat,
    ) + line("imagik_transform_in_flight_peak "@, m.transform_in_flight_peak as nat)
}

/// The whole exposition, section by section.
pub open spec fn prometheus_text(m: MetricsView) -> Seq<char> {
    runtime_config_text(m) + request_totals_text(m) + process_text(m) + cache_summary_text(m)
        + request_latency_text(m) + latency_percentiles_text(
        "cache_lock_wait"@,
        m.cache_lock_wait_ms_hist,
    ) + stage_latency_text(m, PIPELINE_STAGE_COUNT as int) + cache_metrics_text(m)
        + capacity_text(m, SCRATCH_BUFFER_COUNT as int) + storage_text(m)
}

/// Renders every metric in the Prometheus text format.
///
/// The process figures are whatever was last read with `apply_process_status`.
pub fn render_prometheus(metrics: &Metrics) -> (output: String)
    requires
        metrics@.wf(),
        metrics@.hists_fit(),
    ensures
        output@ == prometheus_text(metrics@),
{
    let mut output = String::new();
    append_runtime_config_metrics(&mut output, metrics);
    let ghost a = output@;
    push_line(&mut output, "imagik_requests_total ", metrics.request_total);
    push_line(&mut output, "imagik_requests_errors_total ", metrics.request_errors);
    push_line(&mut output, "imagik_blocking_tasks_total ", metrics.blocking_tasks_total);
    push_line(&mut output, "imagik_transform_in_flight ", metrics.transform_in_flight as u64);
    push_line(
        &mut output,
        "imagik_transform_in_flight_peak ",
        metrics.transform_in_flight_peak as u64,
    );
    assert(output@ =~= a + request_totals_text(metrics@));
    append_process_metrics(&mut output, metrics);
    append_cache_summary_metrics(&mut output, metrics);
    append_request_latency_metrics(&mut output, metrics);
    append_cache_lock_latency_metrics(&mut output, metrics);
    append_stage_latency_metrics(&mut output, metrics);
    append_cache_metrics(&mut output, metrics);
    append_capacity_metrics(&mut output, metrics);
    append_storage_metrics(&mut output, metrics);
    assert(output@ =~= prometheus_text(metrics@));
    output
}

/// The configured runtime limits are what the export shows first: for any
/// registry, the text starts with the four `imagik_config_*` lines of the
/// values that `set_runtime_limits` last set (no other recorder changes them).
pub proof fn lemma_runtime_limits_exported(m: MetricsView)
    ensures
        prometheus_text(m) == line(
            "imagik_config_max_blocking_threads "@,
            m.max_blocking_threads_config as nat,
        ) + line("imagik_config_transform_concurrency "@, m.transform_concurrency_config as nat)
            + line("imagik_config_blocking_keep_alive_ms "@, m.blocking_keep_alive_ms_config as nat)
            + line("imagik_config_rss_sample_interval_ms "@, m.rss_sample_interval_ms_config as nat)
            + prometheus_text(m).skip(runtime_config_text(m).len() as int),
{
    assert(prometheus_text(m) =~= runtime_config_text(m) + prometheus_text(m).skip(
        runtime_config_text(m).len() as int,
    ));
}

/// The external cache figures that `set_external_cache_stats` last set are
/// exported, right after the enabled flag, which they leave alone.
pub proof fn lemma_cache_stats_exported(m: MetricsView)
    ensures
        ({
            let head = runtime_config_text(m) + request_totals_text(m) + process_text(m);
            let stats = line("imagik_external_cache_enabled "@, m.external_cache_enabled as nat)
                + line("imagik_external_cache_memory_bytes "@, m.external_cache_memory_bytes as nat)
                + line(
                "imagik_external_cache_evicted_keys_total "@,
                m.external_cache_evicted_keys as nat,
            );
            prometheus_text(m) == head + stats + prometheus_text(m).skip(
                (head.len() + stats.len()) as int,
            )
        }),
{
    let head = runtime_config_text(m) + request_totals_text(m) + process_text(m);
    assert(prometheus_text(m) =~= head + cache_summary_text(m) + prometheus_text(m).skip(
        (head.len() + cache_summary_text(m).len()) as int,
    ));
}

/// The request total is exported right after the configured limits: the
/// number of requests finished so far, modulo 2^64 (see
/// `lemma_requests_counted`), starting from a new registry's zero.
pub proof fn lemma_request_total_exported(m: MetricsView)
    ensures
        prometheus_text(m) == runtime_config_text(m) + line(
            "imagik_requests_total "@,
            m.request_total as nat,
        ) + prometheus_text(m).skip(
            (runtime_config_text(m).len() + line("imagik_requests_total "@, m.request_total as nat).len()) as int,
        ),
{
    let a = runtime_config_text(m);
    let b = line("imagik_requests_total "@, m.request_total as nat);
    assert(prometheus_text(m) =~= a + b + prometheus_text(m).skip((a.len() + b.len()) as int));
}

/// The exported total counts the finished requests: from a registry whose
/// total is zero (a new one), after any run of finished requests the export
/// shows the same configured limits and then `imagik_requests_total` with
/// the number of those requests, modulo 2^64.
pub proof fn lemma_exported_total_counts_requests(m: MetricsView, calls: Seq<(u64, bool)>)
    requires
        m.request_total == 0,
    ensures
        ({
            let after = requests_finished(m, calls);
            let total_line = line(
                "imagik_requests_total "@,
                (calls.len() % 0x1_0000_0000_0000_0000) as nat,
            );
            prometheus_text(after) == runtime_config_text(m) + total_line + prometheus_text(
                after,
            ).skip((runtime_config_text(m).len() + total_line.len()) as int)
        }),
{
    let after = requests_finished(m, calls);
    lemma_requests_counted(m, calls);
    lemma_request_total_exported(after);
    assert(runtime_config_text(after) == runtime_config_text(m));
    assert(after.request_total as nat == (calls.len() % 0x1_0000_0000_0000_0000) as nat);
}

} // verus!
