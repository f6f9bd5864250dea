//! Runtime metrics: configured limits, process figures and scratch-buffer capacities.
use super::labels::{ScratchBuffer, SCRATCH_BUFFER_COUNT};
use super::latency::{
    bump, bump_counter, capacity_bucket_index, capacity_bucket_spec, capacity_bucket_upper_bound,
    capacity_upper_bound_spec, line, push_line, CAPACITY_BUCKETS,
};
use super::registry::{rows, Metrics, MetricsView};
use super::request::bump_usize;
use crate::text::{
    decimal, push_decimal, push_str, chars_of, first_word, first_word_of, lines, lines_spec, parse_usize, parse_usize_spec,
    strip_prefix, strip_prefix_spec, trim, trim_ws, views,
};
use vstd::prelude::*;

verus! {

/// Stores the runtime configuration so that it is exported with the metrics.
pub fn set_runtime_limits(
    metrics: &mut Metrics,
    max_blocking_threads: usize,
    transform_concurrency: usize,
    blocking_keep_alive_ms: u64,
    rss_sample_interval_ms: u64,
)
    ensures
        final(metrics)@ == (MetricsView {
            max_blocking_threads_config: max_blocking_threads,
            transform_concurrency_config: transform_concurrency,
            blocking_keep_alive_ms_config: blocking_keep_alive_ms,
            rss_sample_interval_ms_config: rss_sample_interval_ms,
            ..old(metrics)@
        }),
{
    metrics.max_blocking_threads_config = max_blocking_threads;
    metrics.transform_concurrency_config = transform_concurrency;
    metrics.blocking_keep_alive_ms_config = blocking_keep_alive_ms;
    metrics.rss_sample_interval_ms_config = rss_sample_interval_ms;
}

/// The registry after a thread reports with its `seen` record: counted when
/// it had not reported before.
pub open spec fn blocking_usage_spec(m: MetricsView, seen: bool) -> MetricsView {
    if seen {
        m
    } else {
        MetricsView { blocking_threads_unique: bump_usize(m.blocking_threads_unique), ..m }
    }
}

/// The registry and the thread's record after `k` reports from one thread,
/// each passing the record the previous one returned.
pub open spec fn thread_reports(m: MetricsView, seen: bool, k: nat) -> (MetricsView, bool)
    decreases k,
{
    if k == 0 {
        (m, seen)
    } else {
        let before = thread_reports(m, seen, (k - 1) as nat);
        (blocking_usage_spec(before.0, before.1), true)
    }
}

/// A thread is counted once: however many times (at least once) a thread
/// that had not reported reports, the count of blocking threads grows by one
/// (wrapping at the largest `usize`) and nothing else changes.
pub proof fn lemma_thread_counted_once(m: MetricsView, k: nat)
    requires
        k >= 1,
    ensures
        thread_reports(m, false, k).1,
        thread_reports(m, false, k).0 == (MetricsView {
            blocking_threads_unique: bump_usize(m.blocking_threads_unique),
            ..m
        }),
    decreases k,
{
    reveal_with_fuel(thread_reports, 2);
    if k > 1 {
        lemma_thread_counted_once(m, (k - 1) as nat);
    }
}

/// Counts the calling thread as a blocking thread the first time it reports.
///
/// `seen` is the thread's own record of whether it has reported before; the
/// result is that record after this call (always `true`).
pub fn record_blocking_thread_usage(metrics: &mut Metrics, seen: bool) -> (now_seen: bool)
    ensures
        now_seen,
        final(metrics)@ == blocking_usage_spec(old(metrics)@, seen),
{
    if !seen {
        metrics.blocking_threads_unique = if metrics.blocking_threads_unique == usize::MAX {
            0
        } else {
            metrics.blocking_threads_unique + 1
        };
    }
    true
}

/// Records one sample of a scratch buffer's capacity.
pub fn record_scratch_capacity(metrics: &mut Metrics, buffer: ScratchBuffer, bytes: usize)
    requires
        old(metrics)@.wf(),
    ensures
        final(metrics)@ == (MetricsView {
            capacity_hists: old(metrics)@.capacity_hists.update(
                buffer.index_spec(),
                old(metrics)@.capacity_hists[buffer.index_spec()].update(
                    capacity_bucket_spec(bytes as nat),
                    bump(
                        old(metrics)@.capacity_hists[buffer.index_spec()][capacity_bucket_spec(
                            bytes as nat,
                        )],
                    ),
                ),
            ),
            ..old(metrics)@
        }),
{
    let b = buffer.as_index();
    let idx = capacity_bucket_index(bytes);
    let mut row: Vec<u64> = Vec::new();
    metrics.capacity_hists.set_and_swap(b, &mut row);
    let v = bump_counter(row[idx]);
    row.set(idx, v);
    metrics.capacity_hists.set_and_swap(b, &mut row);
    assert(rows(metrics.capacity_hists@) =~= old(metrics)@.capacity_hists.update(
        buffer.index_spec(),
        old(metrics)@.capacity_hists[buffer.index_spec()].update(
            capacity_bucket_spec(bytes as nat),
            bump(old(metrics)@.capacity_hists[buffer.index_spec()][capacity_bucket_spec(
                bytes as nat,
            )]),
        ),
    ));
}

/// `usize::saturating_mul`.
pub open spec fn sat_mul_usize(a: nat, b: nat) -> usize {
    if a * b > usize::MAX {
        usize::MAX
    } else {
        (a * b) as usize
    }
}

/// The resident set size a `VmRSS:` line gives, in bytes: its first word read
/// as kilobytes (0 when it is not a number), times 1024, saturating.
pub open spec fn rss_of_line(rest: Seq<char>) -> usize {
    let kb = match parse_usize_spec(first_word(rest)) {
        Some(v) => v,
        None => 0,
    };
    sat_mul_usize(kb, 1024)
}

/// The thread count a `Threads:` line gives.
pub open spec fn threads_of_line(rest: Seq<char>) -> Option<usize> {
    match parse_usize_spec(trim_ws(rest)) {
        Some(v) => Some(v as usize),
        None => None,
    }
}

/// The resident set size and thread count that a process status file gives:
/// the last `VmRSS:` line and the last `Threads:` line decide.
pub open spec fn scan_status(lines: Seq<Seq<char>>) -> (Option<usize>, Option<usize>)
    decreases lines.len(),
{
    if lines.len() == 0 {
        (None, None)
    } else {
        let (rss, threads) = scan_status(lines.drop_last());
        let line = lines.last();
        match strip_prefix_spec(line, "VmRSS:"@) {
            Some(rest) => (Some(rss_of_line(rest)), threads),
            None => match strip_prefix_spec(line, "Threads:"@) {
                Some(rest) => (rss, threads_of_line(rest)),
                None => (rss, threads),
            },
        }
    }
}

/// A peak after a new value.
pub open spec fn peak_after(peak: usize, value: usize) -> usize {
    if value > peak {
        value
    } else {
        peak
    }
}

/// The process figures after a status file (`/proc/self/status`) is read.
pub open spec fn after_status(m: MetricsView, status: Seq<char>) -> MetricsView {
    let (rss, threads) = scan_status(lines_spec(status));
    let m1 = match rss {
        Some(r) => MetricsView { rss_bytes: r, rss_bytes_peak: peak_after(m.rss_bytes_peak, r), ..m },
        None => m,
    };
    match threads {
        Some(t) => MetricsView {
            process_threads: t,
            process_threads_peak: peak_after(m1.process_threads_peak, t),
            ..m1
        },
        None => m1,
    }
}

/// Updates the resident set size and thread count from the text of the process
/// status file; a figure whose line is missing keeps its previous value.
pub fn apply_process_status(metrics: &mut Metrics, status: &str)
    ensures
        final(metrics)@ == after_status(old(metrics)@, status@),
{
    let all = chars_of(status);
    let ls = lines(all.as_slice());
    let ghost lv = lines_spec(status@);
    let vm_rss = chars_of("VmRSS:");
    let threads_prefix = chars_of("Threads:");
    let mut rss_bytes: Option<usize> = None;
    let mut thread_count: Option<usize> = None;
    let mut i: usize = 0;
    assert(lv.take(0) =~= Seq::<Seq<char>>::empty());
    while i < ls.len()
        invariant
            views(ls@) == lv,
            vm_rss@ == "VmRSS:"@,
            threads_prefix@ == "Threads:"@,
            i <= ls@.len(),
            (rss_bytes, thread_count) == scan_status(lv.take(i as int)),
        decreases ls.len() - i,
    {
        assert(lv.take(i + 1).drop_last() =~= lv.take(i as int));
        assert(lv.take(i + 1).last() == ls@[i as int]@);
        let line = &ls[i];
        match strip_prefix(line.as_slice(), vm_rss.as_slice()) {
            Some(rest) => {
                let word = first_word_of(rest.as_slice());
                let kb: usize = match parse_usize(word.as_slice()) {
                    Some(v) => v,
                    None => 0,
                };
                let bytes: usize = match kb.checked_mul(1024) {
                    Some(b) => b,
                    None => usize::MAX,
                };
                rss_bytes = Some(bytes);
            },
            None => {
                match strip_prefix(line.as_slice(), threads_prefix.as_slice()) {
                    Some(rest) => {
                        let t = trim(rest.as_slice());
                        thread_count = parse_usize(t.as_slice());
                    },
                    None => {},
                }
            },
        }
        i = i + 1;
    }
    assert(lv.take(ls@.len() as int) =~= lv);
    if let Some(rss) = rss_bytes {
        metrics.rss_bytes = rss;
        if rss > metrics.rss_bytes_peak {
            metrics.rss_bytes_peak = rss;
        }
    }
    if let Some(threads) = thread_count {
        metrics.process_threads = threads;
        if threads > metrics.process_threads_peak {
            metrics.process_threads_peak = threads;
        }
    }
}

/// The configured runtime limits as samples.
pub open spec fn runtime_config_text(m: MetricsView) -> Seq<char> {
    line("imagik_config_max_blocking_threads "@, m.max_blocking_threads_config as nat) + line(
        "imagik_config_transform_concurrency "@,
        m.transform_concurrency_config as nat,
    ) + line("imagik_config_blocking_keep_alive_ms "@, m.blocking_keep_alive_ms_config as nat)
        + line("imagik_config_rss_sample_interval_ms "@, m.rss_sample_interval_ms_config as nat)
}

/// Appends the configured runtime limits.
pub fn append_runtime_config_metrics(out: &mut String, metrics: &Metrics)
    ensures
        final(out)@ == old(out)@ + runtime_config_text(metrics@),
{
    let ghost start = out@;
    push_line(out, "imagik_config_max_blocking_threads ", metrics.max_blocking_threads_config as u64);
    push_line(
        out,
        "imagik_config_transform_concurrency ",
        metrics.transform_concurrency_config as u64,
    );
    push_line(out, "imagik_config_blocking_keep_alive_ms ", metrics.blocking_keep_alive_ms_config);
    push_line(out, "imagik_config_rss_sample_interval_ms ", metrics.rss_sample_interval_ms_config);
    assert(out@ =~= start + runtime_config_text(metrics@));
}

/// The process figures as samples.
pub open spec fn process_text(m: MetricsView) -> Seq<char> {
    line("imagik_blocking_threads_unique "@, m.blocking_threads_unique as nat) + line(
        "imagik_process_rss_bytes "@,
        m.rss_bytes as nat,
    ) + line("imagik_process_rss_peak_bytes "@, m.rss_bytes_peak as nat) + line(
        "imagik_process_threads "@,
        m.process_threads as nat,
    ) + line("imagik_process_threads_peak "@, m.process_threads_peak as nat)
}

/// Appends the process figures.
pub fn append_process_metrics(out: &mut String, metrics: &Metrics)
    ensures
        final(out)@ == old(out)@ + process_text(metrics@),
{
    let ghost start = out@;
    push_line(out, "imagik_blocking_threads_unique ", metrics.blocking_threads_unique as u64);
    push_line(out, "imagik_process_rss_bytes ", metrics.rss_bytes as u64);
    push_line(out, "imagik_process_rss_peak_bytes ", metrics.rss_bytes_peak as u64);
    push_line(out, "imagik_process_threads ", metrics.process_threads as u64);
    push_line(out, "imagik_process_threads_peak ", metrics.process_threads_peak as u64);
    assert(out@ =~= start + process_text(metrics@));
}

/// One capacity bucket as a sample.
pub open spec fn capacity_line(buffer: ScratchBuffer, idx: int, count: u64) -> Seq<char> {
    line(
        "imagik_scratch_capacity_samples_total{buffer=\""@ + buffer.name_spec() + "\",le=\""@
            + decimal(capacity_upper_bound_spec(idx)) + "\"} "@,
        count as nat,
    )
}

/// The first `k` buckets of a buffer's capacity histogram as samples.
pub open spec fn capacity_buckets_text(buffer: ScratchBuffer, h: Seq<u64>, k: int) -> Seq<char>
    decreases k,
{
    if k <= 0 {
        Seq::empty()
    } else {
        capacity_buckets_text(buffer, h, k - 1) + capacity_line(buffer, k - 1, h[k - 1])
    }
}

/// The capacity histograms of the first `k` buffers as samples.
pub open spec fn capacity_text(m: MetricsView, k: int) -> Seq<char>
    decreases k,
{
    if k <= 0 {
        Seq::empty()
    } else {
        capacity_text(m, k - 1) + capacity_buckets_text(
            ScratchBuffer::at(k - 1),
            m.capacity_hists[k - 1],
            CAPACITY_BUCKETS as int,
        )
    }
}

/// The buffer at a position, in declaration order.
fn buffer_at(i: usize) -> (b: ScratchBuffer)
    ensures
        b == ScratchBuffer::at(i as int),
{
    if i == 0 {
        ScratchBuffer::Downscaled
    } else if i == 1 {
        ScratchBuffer::Working
    } else {
        ScratchBuffer::FullResult
    }
}

/// Appends every bucket of one buffer's capacity histogram.
fn append_capacity_buckets(out: &mut String, buffer: ScratchBuffer, hist: &Vec<u64>)
    requires
        hist@.len() == CAPACITY_BUCKETS,
    ensures
        final(out)@ == old(out)@ + capacity_buckets_text(buffer, hist@, CAPACITY_BUCKETS as int),
{
    let ghost start = out@;
    let mut idx: usize = 0;
    while idx < CAPACITY_BUCKETS
        invariant
            idx <= CAPACITY_BUCKETS,
            hist@.len() == CAPACITY_BUCKETS,
            out@ == start + capacity_buckets_text(buffer, hist@, idx as int),
        decreases CAPACITY_BUCKETS - idx,
    {
        let mut head = String::new();
        push_str(&mut head, "imagik_scratch_capacity_samples_total{buffer=\"");
        push_str(&mut head, buffer.as_name());
        push_str(&mut head, "\",le=\"");
        push_decimal(&mut head, capacity_bucket_upper_bound(idx) as u64);
        push_str(&mut head, "\"} ");
        push_line(out, head.as_str(), hist[idx]);
        idx = idx + 1;
        assert(out@ =~= start + capacity_buckets_text(buffer, hist@, idx as int));
    }
}

/// Appends the capacity histograms of every scratch buffer.
pub fn append_capacity_metrics(out: &mut String, metrics: &Metrics)
    requires
        metrics@.wf(),
    ensures
        final(out)@ == old(out)@ + capacity_text(metrics@, SCRATCH_BUFFER_COUNT as int),
{
    let ghost start = out@;
    let mut b: usize = 0;
    while b < SCRATCH_BUFFER_COUNT
        invariant
            b <= SCRATCH_BUFFER_COUNT,
            metrics@.wf(),
            out@ == start + capacity_text(metrics@, b as int),
        decreases SCRATCH_BUFFER_COUNT - b,
    {
        let buffer = buffer_at(b);
        assert(rows(metrics.capacity_hists@)[b as int] == metrics.capacity_hists@[b as int]@);
        append_capacity_buckets(out, buffer, &metrics.capacity_hists[b]);
        b = b + 1;
        assert(out@ =~= start + capacity_text(metrics@, b as int));
    }
}

} // verus!
