//! Request metrics: totals, errors, in-flight transforms and latency histograms.
use super::latency::{
    append_latency_percentiles, bump, bump_counter, hist_record, latency_bucket_spec,
    latency_percentiles_text, record_latency_hist, LATENCY_BUCKETS,
};
use super::registry::{update_peak, Metrics, MetricsView};
use vstd::prelude::*;

verus! {

/// A `usize` counter after one increment, wrapping at `usize::MAX`.
pub open spec fn bump_usize(x: usize) -> usize {
    if x == usize::MAX {
        0
    } else {
        (x + 1) as usize
    }
}

/// A `usize` counter after one decrement, wrapping at zero.
pub open spec fn drop_usize(x: usize) -> usize {
    if x == 0 {
        usize::MAX
    } else {
        (x - 1) as usize
    }
}

/// Tracks one transform in flight: creating it counts the transform and raises
/// the peak; releasing it uncounts the transform.
pub struct TransformInFlightGuard;

impl TransformInFlightGuard {
    /// Counts a transform in flight and raises the peak to the new count.
    pub fn new(metrics: &mut Metrics) -> (g: Self)
        ensures
            final(metrics)@ == (MetricsView {
                transform_in_flight: bump_usize(old(metrics)@.transform_in_flight),
                transform_in_flight_peak: if bump_usize(old(metrics)@.transform_in_flight)
                    > old(metrics)@.transform_in_flight_peak {
                    bump_usize(old(metrics)@.transform_in_flight)
                } else {
                    old(metrics)@.transform_in_flight_peak
                },
                ..old(metrics)@
            }),
    {
        let in_flight: usize = if metrics.transform_in_flight == usize::MAX {
            0
        } else {
            metrics.transform_in_flight + 1
        };
        metrics.transform_in_flight = in_flight;
        update_peak(&mut metrics.transform_in_flight_peak, in_flight);
        TransformInFlightGuard
    }

    /// Ends the transform this guard counts.
    pub fn release(self, metrics: &mut Metrics)
        ensures
            final(metrics)@ == (MetricsView {
                transform_in_flight: drop_usize(old(metrics)@.transform_in_flight),
                ..old(metrics)@
            }),
    {
        metrics.transform_in_flight = if metrics.transform_in_flight == 0 {
            usize::MAX
        } else {
            metrics.transform_in_flight - 1
        };
    }
}

/// The registry after one finished request: the total counts it, the error
/// count counts a failure, and its latency goes into the histogram.
pub open spec fn request_finished_spec(m: MetricsView, millis: u64, success: bool) -> MetricsView {
    MetricsView {
        request_total: bump(m.request_total),
        request_errors: if success {
            m.request_errors
        } else {
            bump(m.request_errors)
        },
        request_latency_ms_hist: hist_record(
            m.request_latency_ms_hist,
            latency_bucket_spec(millis as nat),
        ),
        ..m
    }
}

/// The registry after requests finished one after the other, each with its
/// latency and whether it succeeded.
pub open spec fn requests_finished(m: MetricsView, calls: Seq<(u64, bool)>) -> MetricsView
    decreases calls.len(),
{
    if calls.len() == 0 {
        m
    } else {
        request_finished_spec(
            requests_finished(m, calls.drop_last()),
            calls.last().0,
            calls.last().1,
        )
    }
}

/// The failed requests among some finished ones.
pub open spec fn failures(calls: Seq<(u64, bool)>) -> nat
    decreases calls.len(),
{
    if calls.len() == 0 {
        0
    } else {
        failures(calls.drop_last()) + if calls.last().1 {
            0nat
        } else {
            1nat
        }
    }
}

/// Every finished request is counted: after any run of finished requests the
/// total has grown by their number and the error count by the failures among
/// them, both modulo 2^64 as the counters wrap; nothing else but the latency
/// histogram changes.
pub proof fn lemma_requests_counted(m: MetricsView, calls: Seq<(u64, bool)>)
    ensures
        requests_finished(m, calls).request_total as int == (m.request_total + calls.len())
            % 0x1_0000_0000_0000_0000,
        requests_finished(m, calls).request_errors as int == (m.request_errors + failures(calls))
            % 0x1_0000_0000_0000_0000,
        requests_finished(m, calls) == (MetricsView {
            request_total: requests_finished(m, calls).request_total,
            request_errors: requests_finished(m, calls).request_errors,
            request_latency_ms_hist: requests_finished(m, calls).request_latency_ms_hist,
            ..m
        }),
    decreases calls.len(),
{
    if calls.len() > 0 {
        lemma_requests_counted(m, calls.drop_last());
        let before = requests_finished(m, calls.drop_last());
        assert(before.request_total as int == (m.request_total + calls.len() - 1)
            % 0x1_0000_0000_0000_0000);
        assert((m.request_total + calls.len() - 1) % 0x1_0000_0000_0000_0000 == u64::MAX ==> (
        m.request_total + calls.len()) % 0x1_0000_0000_0000_0000 == 0) by (nonlinear_arith);
        assert((m.request_total + calls.len() - 1) % 0x1_0000_0000_0000_0000 < u64::MAX ==> (
        m.request_total + calls.len()) % 0x1_0000_0000_0000_0000 == (m.request_total + calls.len()
            - 1) % 0x1_0000_0000_0000_0000 + 1) by (nonlinear_arith);
        let f = failures(calls.drop_last());
        let step: int = if calls.last().1 { 0 } else { 1 };
        assert((m.request_errors + f) % 0x1_0000_0000_0000_0000 == u64::MAX ==> (m.request_errors
            + f + 1) % 0x1_0000_0000_0000_0000 == 0) by (nonlinear_arith);
        assert((m.request_errors + f) % 0x1_0000_0000_0000_0000 < u64::MAX ==> (m.request_errors
            + f + 1) % 0x1_0000_0000_0000_0000 == (m.request_errors + f) % 0x1_0000_0000_0000_0000
            + 1) by (nonlinear_arith);
    } else {
        assert(m.request_total as int % 0x1_0000_0000_0000_0000 == m.request_total);
        assert(m.request_errors as int % 0x1_0000_0000_0000_0000 == m.request_errors);
    }
}

/// Records a finished request: its latency, and an error when it failed.
pub fn record_request_finished(metrics: &mut Metrics, millis: u64, success: bool)
    requires
        old(metrics)@.wf(),
    ensures
        final(metrics)@ == request_finished_spec(old(metrics)@, millis, success),
{
    metrics.request_total = bump_counter(metrics.request_total);
    if !success {
        metrics.request_errors = bump_counter(metrics.request_errors);
    }
    record_latency_hist(&mut metrics.request_latency_ms_hist, millis);
}

/// Records the time spent waiting for a transform permit.
pub fn record_queue_wait(metrics: &mut Metrics, millis: u64)
    requires
        old(metrics)@.wf(),
    ensures
        final(metrics)@ == (MetricsView {
            queue_wait_ms_hist: hist_record(
                old(metrics)@.queue_wait_ms_hist,
                latency_bucket_spec(millis as nat),
            ),
            ..old(metrics)@
        }),
{
    record_latency_hist(&mut metrics.queue_wait_ms_hist, millis);
}

/// Records image processing time, queue wait excluded.
pub fn record_processing_latency(metrics: &mut Metrics, millis: u64)
    requires
        old(metrics)@.wf(),
    ensures
        final(metrics)@ == (MetricsView {
            processing_ms_hist: hist_record(
                old(metrics)@.processing_ms_hist,
                latency_bucket_spec(millis as nat),
            ),
            ..old(metrics)@
        }),
{
    record_latency_hist(&mut metrics.processing_ms_hist, millis);
}

/// Records that a blocking task was started.
pub fn record_blocking_task_started(metrics: &mut Metrics)
    ensures
        final(metrics)@ == (MetricsView {
            blocking_tasks_total: bump(old(metrics)@.blocking_tasks_total),
            ..old(metrics)@
        }),
{
    metrics.blocking_tasks_total = bump_counter(metrics.blocking_tasks_total);
}

/// The request, queue-wait and processing latency percentiles.
pub open spec fn request_latency_text(m: MetricsView) -> Seq<char> {
    latency_percentiles_text("request"@, m.request_latency_ms_hist) + latency_percentiles_text(
        "queue_wait"@,
        m.queue_wait_ms_hist,
    ) + latency_percentiles_text("processing"@, m.processing_ms_hist)
}

/// Appends the request, queue-wait and processing latency percentiles.
pub fn append_request_latency_metrics(out: &mut String, metrics: &Metrics)
    requires
        metrics@.wf(),
        metrics@.hists_fit(),
    ensures
        final(out)@ == old(out)@ + request_latency_text(metrics@),
{
    let ghost start = out@;
    append_latency_percentiles(out, "request", &metrics.request_latency_ms_hist);
    append_latency_percentiles(out, "queue_wait", &metrics.queue_wait_ms_hist);
    append_latency_percentiles(out, "processing", &metrics.processing_ms_hist);
    assert(out@ =~= start + request_latency_text(metrics@));
}

} // verus!
