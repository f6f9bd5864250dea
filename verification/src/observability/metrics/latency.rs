//! Histogram buckets and percentiles.
//!
//! Latency buckets cover 1 ms to 131 s with doubling bounds; capacity buckets
//! cover 64 KiB to 128 MiB for scratch-buffer sampling.
use crate::text::{decimal, push_decimal, push_str};
use vstd::arithmetic::div_mod::lemma_div_is_ordered;
use vstd::prelude::*;

verus! {

/// The number of latency bounds.
pub const LATENCY_BOUND_COUNT: usize = 18;

/// The number of latency buckets: one per bound and one above the last.
pub const LATENCY_BUCKETS: usize = 19;

/// The number of capacity bounds.
pub const CAPACITY_BOUND_COUNT: usize = 12;

/// The number of capacity buckets: one per bound and one above the last.
pub const CAPACITY_BUCKETS: usize = 13;

/// The `i`th latency bound in milliseconds: 1, 2, 4, ... 131072.
pub open spec fn latency_bound_spec(i: int) -> nat {
    if i == 0 {
        1
    } else if i == 1 {
        2
    } else if i == 2 {
        4
    } else if i == 3 {
        8
    } else if i == 4 {
        16
    } else if i == 5 {
        32
    } else if i == 6 {
        64
    } else if i == 7 {
        128
    } else if i == 8 {
        256
    } else if i == 9 {
        512
    } else if i == 10 {
        1_024
    } else if i == 11 {
        2_048
    } else if i == 12 {
        4_096
    } else if i == 13 {
        8_192
    } else if i == 14 {
        16_384
    } else if i == 15 {
        32_768
    } else if i == 16 {
        65_536
    } else {
        131_072
    }
}

/// The latency bounds, ascending.
pub open spec fn latency_bounds() -> Seq<nat> {
    Seq::new(LATENCY_BOUND_COUNT as nat, |i: int| latency_bound_spec(i))
}

/// The `i`th capacity bound in bytes: 64 KiB, 128 KiB, ... 128 MiB.
pub open spec fn capacity_bound_spec(i: int) -> nat {
    if i == 0 {
        65_536
    } else if i == 1 {
        131_072
    } else if i == 2 {
        262_144
    } else if i == 3 {
        524_288
    } else if i == 4 {
        1_048_576
    } else if i == 5 {
        2_097_152
    } else if i == 6 {
        4_194_304
    } else if i == 7 {
        8_388_608
    } else if i == 8 {
        16_777_216
    } else if i == 9 {
        33_554_432
    } else if i == 10 {
        67_108_864
    } else {
        134_217_728
    }
}

/// The capacity bounds, ascending.
pub open spec fn capacity_bounds() -> Seq<nat> {
    Seq::new(CAPACITY_BOUND_COUNT as nat, |i: int| capacity_bound_spec(i))
}

/// The index of the first bound at or after `i` that is at least `v`, or the
/// number of bounds (`partition_point(|b| v > b)` on ascending bounds).
pub open spec fn first_bound_at_least(bounds: Seq<nat>, v: nat, i: int) -> int
    decreases bounds.len() - i,
{
    if i < 0 || i >= bounds.len() {
        bounds.len() as int
    } else if v <= bounds[i] {
        i
    } else {
        first_bound_at_least(bounds, v, i + 1)
    }
}

/// The latency bucket of a duration in milliseconds.
pub open spec fn latency_bucket_spec(ms: nat) -> int {
    first_bound_at_least(latency_bounds(), ms, 0)
}

/// The capacity bucket of a byte count.
pub open spec fn capacity_bucket_spec(bytes: nat) -> int {
    first_bound_at_least(capacity_bounds(), bytes, 0)
}

proof fn lemma_first_bound_range(bounds: Seq<nat>, v: nat, i: int)
    requires
        0 <= i <= bounds.len(),
    ensures
        i <= first_bound_at_least(bounds, v, i) <= bounds.len(),
        forall|k: int| i <= k < first_bound_at_least(bounds, v, i) ==> v > bounds[k],
        first_bound_at_least(bounds, v, i) < bounds.len() ==> v <= bounds[first_bound_at_least(
            bounds,
            v,
            i,
        )],
    decreases bounds.len() - i,
{
    if i < bounds.len() && v > bounds[i] {
        lemma_first_bound_range(bounds, v, i + 1);
    }
}

/// The `i`th latency bound.
pub fn latency_bound(i: usize) -> (b: u64)
    requires
        i < LATENCY_BOUND_COUNT,
    ensures
        b == latency_bounds()[i as int],
{
    if i == 0 {
        1
    } else if i == 1 {
        2
    } else if i == 2 {
        4
    } else if i == 3 {
        8
    } else if i == 4 {
        16
    } else if i == 5 {
        32
    } else if i == 6 {
        64
    } else if i == 7 {
        128
    } else if i == 8 {
        256
    } else if i == 9 {
        512
    } else if i == 10 {
        1_024
    } else if i == 11 {
        2_048
    } else if i == 12 {
        4_096
    } else if i == 13 {
        8_192
    } else if i == 14 {
        16_384
    } else if i == 15 {
        32_768
    } else if i == 16 {
        65_536
    } else {
        131_072
    }
}

/// The `i`th capacity bound.
pub fn capacity_bound(i: usize) -> (b: usize)
    requires
        i < CAPACITY_BOUND_COUNT,
    ensures
        b == capacity_bounds()[i as int],
{
    if i == 0 {
        65_536
    } else if i == 1 {
        131_072
    } else if i == 2 {
        262_144
    } else if i == 3 {
        524_288
    } else if i == 4 {
        1_048_576
    } else if i == 5 {
        2_097_152
    } else if i == 6 {
        4_194_304
    } else if i == 7 {
        8_388_608
    } else if i == 8 {
        16_777_216
    } else if i == 9 {
        33_554_432
    } else if i == 10 {
        67_108_864
    } else {
        134_217_728
    }
}

/// The latency bucket of a duration: the first bound it does not exceed,
/// or the overflow bucket after the last bound.
pub fn latency_bucket_index(ms: u64) -> (idx: usize)
    ensures
        idx == latency_bucket_spec(ms as nat),
        idx < LATENCY_BUCKETS,
{
    let mut i: usize = 0;
    while i < LATENCY_BOUND_COUNT && ms > latency_bound(i)
        invariant
            i <= LATENCY_BOUND_COUNT,
            latency_bucket_spec(ms as nat) == first_bound_at_least(
                latency_bounds(),
                ms as nat,
                i as int,
            ),
        decreases LATENCY_BOUND_COUNT - i,
    {
        i = i + 1;
    }
    i
}

/// The capacity bucket of a byte count.
pub fn capacity_bucket_index(bytes: usize) -> (idx: usize)
    ensures
        idx == capacity_bucket_spec(bytes as nat),
        idx < CAPACITY_BUCKETS,
{
    let mut i: usize = 0;
    while i < CAPACITY_BOUND_COUNT && bytes > capacity_bound(i)
        invariant
            i <= CAPACITY_BOUND_COUNT,
            capacity_bucket_spec(bytes as nat) == first_bound_at_least(
                capacity_bounds(),
                bytes as nat,
                i as int,
            ),
        decreases CAPACITY_BOUND_COUNT - i,
    {
        i = i + 1;
    }
    i
}

/// The upper bound a capacity bucket reports: its bound, or `usize::MAX` above the last.
pub open spec fn capacity_upper_bound_spec(idx: int) -> nat {
    if 0 <= idx < CAPACITY_BOUND_COUNT {
        capacity_bounds()[idx]
    } else {
        usize::MAX as nat
    }
}

/// The upper bound of a capacity bucket.
pub fn capacity_bucket_upper_bound(idx: usize) -> (b: usize)
    ensures
        b == capacity_upper_bound_spec(idx as int),
{
    if idx < CAPACITY_BOUND_COUNT {
        capacity_bound(idx)
    } else {
        usize::MAX
    }
}

/// The upper bound a latency bucket reports: its bound, or twice the last bound above it.
pub open spec fn latency_upper_bound_spec(idx: int) -> nat {
    if 0 <= idx < LATENCY_BOUND_COUNT {
        latency_bounds()[idx]
    } else {
        262_144
    }
}

/// The upper bound of a latency bucket.
pub fn latency_bucket_upper_bound(idx: usize) -> (b: u64)
    ensures
        b == latency_upper_bound_spec(idx as int),
{
    if idx < LATENCY_BOUND_COUNT {
        latency_bound(idx)
    } else {
        262_144
    }
}

// ---------------------------------------------------------------------------
// Histograms
// ---------------------------------------------------------------------------

/// A counter after one increment; atomic counters wrap at `u64::MAX`.
pub open spec fn bump(x: u64) -> u64 {
    if x == u64::MAX {
        0
    } else {
        (x + 1) as u64
    }
}

/// Adds one to a counter, wrapping as an atomic counter does.
pub fn bump_counter(x: u64) -> (y: u64)
    ensures
        y == bump(x),
{
    if x == u64::MAX {
        0
    } else {
        x + 1
    }
}

/// The number of samples in a histogram.
pub open spec fn hist_total(h: Seq<u64>) -> nat
    decreases h.len(),
{
    if h.len() == 0 {
        0
    } else {
        (hist_total(h.drop_last()) + h.last()) as nat
    }
}

/// A histogram after one sample in bucket `idx` (ignored when the bucket does not exist).
pub open spec fn hist_record(h: Seq<u64>, idx: int) -> Seq<u64> {
    if 0 <= idx < h.len() {
        h.update(idx, bump(h[idx]))
    } else {
        h
    }
}

/// Records one latency sample in a histogram of `LATENCY_BUCKETS` buckets.
pub fn record_latency_hist(hist: &mut Vec<u64>, millis: u64)
    requires
        old(hist)@.len() == LATENCY_BUCKETS,
    ensures
        final(hist)@ == hist_record(old(hist)@, latency_bucket_spec(millis as nat)),
{
    let idx = latency_bucket_index(millis);
    let v = bump_counter(hist[idx]);
    hist.set(idx, v);
}

/// Records one latency sample in a histogram of any length; a bucket past its
/// end is not recorded.
pub fn record_hist_slice(hist: &mut Vec<u64>, millis: u64)
    ensures
        final(hist)@ == hist_record(old(hist)@, latency_bucket_spec(millis as nat)),
{
    let idx = latency_bucket_index(millis);
    if idx < hist.len() {
        let v = bump_counter(hist[idx]);
        hist.set(idx, v);
    }
}

// ---------------------------------------------------------------------------
// Percentiles
// ---------------------------------------------------------------------------

/// `u64::saturating_mul`.
pub open spec fn sat_mul(a: u64, b: u64) -> u64 {
    if a * b > u64::MAX {
        u64::MAX
    } else {
        (a * b) as u64
    }
}

/// `u64::saturating_add`.
pub open spec fn sat_add(a: u64, b: u64) -> u64 {
    if a + b > u64::MAX {
        u64::MAX
    } else {
        (a + b) as u64
    }
}

/// The rank of a percentile: `ceil(total * numerator / denominator)` with saturating
/// arithmetic, clamped to `1..=total`; the whole total when the denominator is 0.
pub open spec fn rank_spec(total: u64, numerator: u64, denominator: u64) -> u64 {
    if denominator == 0 {
        total
    } else {
        let r = sat_add(sat_mul(total, numerator), (denominator - 1) as u64) / denominator;
        if r < 1 {
            1
        } else if r > total {
            total
        } else {
            r as u64
        }
    }
}

/// Computes the rank of a percentile.
pub fn percentile_rank(total: u64, numerator: u64, denominator: u64) -> (r: u64)
    requires
        denominator == 0 || total >= 1,
    ensures
        r == rank_spec(total, numerator, denominator),
{
    if denominator == 0 {
        return total;
    }
    let scaled: u64 = match total.checked_mul(numerator) {
        Some(x) => x,
        None => u64::MAX,
    };
    let bumped: u64 = match scaled.checked_add(denominator - 1) {
        Some(x) => x,
        None => u64::MAX,
    };
    let rank: u64 = bumped / denominator;
    if rank < 1 {
        1
    } else if rank > total {
        total
    } else {
        rank
    }
}

/// The bucket a search falls back to when no prefix reaches the rank.
pub open spec fn last_bucket(h: Seq<u64>) -> int {
    if h.len() == 0 {
        0
    } else {
        h.len() - 1
    }
}

/// The first bucket at or after `i` whose prefix total reaches `rank`.
pub open spec fn first_reaching(h: Seq<u64>, rank: nat, i: int) -> int
    decreases h.len() - i,
{
    if i < 0 || i >= h.len() {
        last_bucket(h)
    } else if hist_total(h.take(i + 1)) >= rank {
        i
    } else {
        first_reaching(h, rank, i + 1)
    }
}

/// A percentile of a latency histogram: the upper bound of the first bucket
/// whose cumulative count reaches the percentile's rank, or 0 when empty.
pub open spec fn percentile_spec(h: Seq<u64>, numerator: u64, denominator: u64) -> nat {
    let total = hist_total(h);
    if total == 0 {
        0
    } else {
        latency_upper_bound_spec(
            first_reaching(h, rank_spec(total as u64, numerator, denominator) as nat, 0),
        )
    }
}

/// Whether a histogram's total fits in a `u64`, as summing it requires.
pub open spec fn hist_fits(h: Seq<u64>) -> bool {
    hist_total(h) <= u64::MAX
}

proof fn lemma_hist_total_take_step(h: Seq<u64>, i: int)
    requires
        0 <= i < h.len(),
    ensures
        hist_total(h.take(i + 1)) == hist_total(h.take(i)) + h[i],
{
    assert(h.take(i + 1).drop_last() =~= h.take(i));
}

proof fn lemma_hist_total_prefix(h: Seq<u64>, i: int, j: int)
    requires
        0 <= i <= j <= h.len(),
    ensures
        hist_total(h.take(i)) <= hist_total(h.take(j)),
    decreases j - i,
{
    if i < j {
        lemma_hist_total_prefix(h, i, j - 1);
        lemma_hist_total_take_step(h, j - 1);
    }
}

proof fn lemma_hist_total_whole(h: Seq<u64>)
    ensures
        hist_total(h.take(h.len() as int)) == hist_total(h),
{
    assert(h.take(h.len() as int) =~= h);
}

/// Sums a histogram.
pub fn hist_sum(hist: &Vec<u64>) -> (total: u64)
    requires
        hist_fits(hist@),
    ensures
        total == hist_total(hist@),
{
    let mut total: u64 = 0;
    let mut i: usize = 0;
    assert(hist@.take(0) =~= Seq::<u64>::empty());
    while i < hist.len()
        invariant
            i <= hist@.len(),
            hist_fits(hist@),
            total == hist_total(hist@.take(i as int)),
        decreases hist.len() - i,
    {
        proof {
            lemma_hist_total_take_step(hist@, i as int);
            lemma_hist_total_prefix(hist@, i + 1, hist@.len() as int);
            lemma_hist_total_whole(hist@);
        }
        total = total + hist[i];
        i = i + 1;
    }
    proof {
        lemma_hist_total_whole(hist@);
    }
    total
}

/// Decides `hist_fits`.
pub fn hist_fits_check(hist: &Vec<u64>) -> (res: bool)
    ensures
        res == hist_fits(hist@),
{
    let mut acc: u128 = 0;
    let mut i: usize = 0;
    assert(hist@.take(0) =~= Seq::<u64>::empty());
    while i < hist.len()
        invariant
            i <= hist@.len(),
            acc == hist_total(hist@.take(i as int)),
            acc <= u64::MAX,
        decreases hist.len() - i,
    {
        proof {
            lemma_hist_total_take_step(hist@, i as int);
        }
        acc = acc + hist[i] as u128;
        if acc > u64::MAX as u128 {
            proof {
                lemma_hist_total_prefix(hist@, i + 1, hist@.len() as int);
                lemma_hist_total_whole(hist@);
            }
            return false;
        }
        i = i + 1;
    }
    proof {
        lemma_hist_total_whole(hist@);
    }
    true
}

/// A percentile of a histogram of any length.
pub fn percentile_from_hist_slice(hist: &Vec<u64>, numerator: u64, denominator: u64) -> (p: u64)
    requires
        hist_fits(hist@),
    ensures
        p == percentile_spec(hist@, numerator, denominator),
{
    let total = hist_sum(hist);
    if total == 0 {
        return 0;
    }
    let rank = percentile_rank(total, numerator, denominator);
    let mut cumulative: u64 = 0;
    let mut idx: usize = 0;
    assert(hist@.take(0) =~= Seq::<u64>::empty());
    while idx < hist.len()
        invariant
            idx <= hist@.len(),
            hist_fits(hist@),
            total == hist_total(hist@),
            total > 0,
            rank == rank_spec(total, numerator, denominator),
            cumulative == hist_total(hist@.take(idx as int)),
            first_reaching(hist@, rank as nat, 0) == first_reaching(hist@, rank as nat, idx as int),
        decreases hist.len() - idx,
    {
        proof {
            lemma_hist_total_take_step(hist@, idx as int);
            lemma_hist_total_prefix(hist@, idx + 1, hist@.len() as int);
            lemma_hist_total_whole(hist@);
        }
        cumulative = cumulative + hist[idx];
        if cumulative >= rank {
            assert(first_reaching(hist@, rank as nat, idx as int) == idx);
            assert(rank == rank_spec(hist_total(hist@) as u64, numerator, denominator));
            assert(hist_total(hist@) != 0);
            let p = latency_bucket_upper_bound(idx);
            assert(p == latency_upper_bound_spec(first_reaching(hist@, rank as nat, 0)));
            return p;
        }
        idx = idx + 1;
    }
    let last: usize = if hist.len() == 0 {
        0
    } else {
        hist.len() - 1
    };
    latency_bucket_upper_bound(last)
}

/// A percentile of a latency histogram of `LATENCY_BUCKETS` buckets.
pub fn percentile_from_hist(hist: &Vec<u64>, numerator: u64, denominator: u64) -> (p: u64)
    requires
        hist@.len() == LATENCY_BUCKETS,
        hist_fits(hist@),
    ensures
        p == percentile_spec(hist@, numerator, denominator),
{
    percentile_from_hist_slice(hist, numerator, denominator)
}

// ---------------------------------------------------------------------------
// Export lines
// ---------------------------------------------------------------------------

/// One exported sample: its name and labels, the value in decimal, a newline.
pub open spec fn line(prefix: Seq<char>, v: nat) -> Seq<char> {
    prefix + decimal(v) + "\n"@
}

/// Appends one exported sample whose name and labels are `prefix`.
pub fn push_line(out: &mut String, prefix: &str, v: u64)
    ensures
        final(out)@ == old(out)@ + line(prefix@, v as nat),
{
    let ghost start = out@;
    push_str(out, prefix);
    push_decimal(out, v);
    push_str(out, "\n");
    assert(out@ =~= start + line(prefix@, v as nat));
}

/// The p50, p95 and p99 samples of a histogram; `head` is the sample name and
/// labels up to the opening quote of the quantile label.
pub open spec fn quantile_lines(head: Seq<char>, h: Seq<u64>) -> Seq<char> {
    line(head + "0.50\"} "@, percentile_spec(h, 50, 100)) + line(
        head + "0.95\"} "@,
        percentile_spec(h, 95, 100),
    ) + line(head + "0.99\"} "@, percentile_spec(h, 99, 100))
}

/// Appends the p50, p95 and p99 samples of a histogram.
pub fn push_quantile_lines(out: &mut String, head: &String, hist: &Vec<u64>)
    requires
        hist_fits(hist@),
    ensures
        final(out)@ == old(out)@ + quantile_lines(head@, hist@),
{
    let ghost start = out@;
    let p50 = percentile_from_hist_slice(hist, 50, 100);
    let p95 = percentile_from_hist_slice(hist, 95, 100);
    let p99 = percentile_from_hist_slice(hist, 99, 100);
    let mut l50 = head.clone();
    push_str(&mut l50, "0.50\"} ");
    push_line(out, l50.as_str(), p50);
    let mut l95 = head.clone();
    push_str(&mut l95, "0.95\"} ");
    push_line(out, l95.as_str(), p95);
    let mut l99 = head.clone();
    push_str(&mut l99, "0.99\"} ");
    push_line(out, l99.as_str(), p99);
    assert(out@ =~= start + quantile_lines(head@, hist@));
}

/// The head of a latency sample: `imagik_latency_ms{kind="<kind>",quantile="`.
pub open spec fn latency_head(kind: Seq<char>) -> Seq<char> {
    "imagik_latency_ms{kind=\""@ + kind + "\",quantile=\""@
}

/// The percentile samples of a request-level latency histogram.
pub open spec fn latency_percentiles_text(kind: Seq<char>, h: Seq<u64>) -> Seq<char> {
    quantile_lines(latency_head(kind), h)
}

/// Appends the p50, p95 and p99 of a latency histogram under a `kind` label.
pub fn append_latency_percentiles(out: &mut String, kind: &str, hist: &Vec<u64>)
    requires
        hist@.len() == LATENCY_BUCKETS,
        hist_fits(hist@),
    ensures
        final(out)@ == old(out)@ + latency_percentiles_text(kind@, hist@),
{
    let mut head = String::new();
    push_str(&mut head, "imagik_latency_ms{kind=\"");
    push_str(&mut head, kind);
    push_str(&mut head, "\",quantile=\"");
    assert(head@ =~= latency_head(kind@));
    push_quantile_lines(out, &head, hist);
}

// ---------------------------------------------------------------------------
// Laws
// ---------------------------------------------------------------------------

proof fn lemma_rank_monotone(total: u64, n1: u64, n2: u64, den: u64)
    requires
        total >= 1,
        n1 <= n2,
        den > 0,
    ensures
        rank_spec(total, n1, den) <= rank_spec(total, n2, den),
{
    assert(total * n1 <= total * n2) by (nonlinear_arith)
        requires
            n1 <= n2,
    ;
    assert(sat_mul(total, n1) <= sat_mul(total, n2));
    let a = sat_add(sat_mul(total, n1), (den - 1) as u64);
    let b = sat_add(sat_mul(total, n2), (den - 1) as u64);
    assert(a <= b);
    lemma_div_is_ordered(a as int, b as int, den as int);
    assert(a / den <= b / den);
    let ra = a / den;
    let rb = b / den;
    assert(rank_spec(total, n1, den) == (if ra < 1 {
        1
    } else if ra > total {
        total
    } else {
        ra as u64
    }));
    assert(rank_spec(total, n2, den) == (if rb < 1 {
        1
    } else if rb > total {
        total
    } else {
        rb as u64
    }));
}

proof fn lemma_first_reaching_monotone(h: Seq<u64>, r1: nat, r2: nat, i: int)
    requires
        r1 <= r2,
        0 <= i <= h.len(),
    ensures
        first_reaching(h, r1, i) <= first_reaching(h, r2, i),
    decreases h.len() - i,
{
    if i < h.len() {
        if hist_total(h.take(i + 1)) >= r2 {
        } else if hist_total(h.take(i + 1)) >= r1 {
            lemma_first_reaching_at_least(h, r2, i + 1);
        } else {
            lemma_first_reaching_monotone(h, r1, r2, i + 1);
        }
    }
}

proof fn lemma_first_reaching_at_least(h: Seq<u64>, r: nat, i: int)
    requires
        0 < i <= h.len(),
    ensures
        first_reaching(h, r, i) >= i - 1,
    decreases h.len() - i,
{
    if i < h.len() && hist_total(h.take(i + 1)) < r {
        lemma_first_reaching_at_least(h, r, i + 1);
    }
}

proof fn lemma_first_reaching_nonneg(h: Seq<u64>, r: nat, i: int)
    requires
        0 <= i,
    ensures
        first_reaching(h, r, i) >= 0,
    decreases h.len() - i,
{
    if i < h.len() && hist_total(h.take(i + 1)) < r {
        lemma_first_reaching_nonneg(h, r, i + 1);
    }
}

proof fn lemma_bound_step(k: int)
    requires
        0 <= k < LATENCY_BOUND_COUNT - 1,
    ensures
        latency_bound_spec(k) < latency_bound_spec(k + 1),
{
}

proof fn lemma_upper_bound_monotone(i: int, j: int)
    requires
        0 <= i <= j,
    ensures
        latency_upper_bound_spec(i) <= latency_upper_bound_spec(j),
    decreases j - i,
{
    if i < j {
        lemma_upper_bound_monotone(i, j - 1);
        if 0 <= j - 1 && j < LATENCY_BOUND_COUNT {
            lemma_bound_step(j - 1);
            assert(latency_bounds()[j - 1] == latency_bound_spec(j - 1));
            assert(latency_bounds()[j] == latency_bound_spec(j));
        } else if 0 <= j - 1 && j - 1 < LATENCY_BOUND_COUNT {
            assert(latency_bounds()[j - 1] == latency_bound_spec(j - 1));
        }
    }
}

/// Percentiles of one histogram are ordered as their fractions are: with a
/// common denominator, a larger numerator never reports a smaller latency
/// (so p50 <= p95 <= p99).
pub proof fn lemma_percentile_monotone(h: Seq<u64>, n1: u64, n2: u64, den: u64)
    requires
        n1 <= n2,
        den > 0,
        hist_fits(h),
    ensures
        percentile_spec(h, n1, den) <= percentile_spec(h, n2, den),
{
    let total = hist_total(h);
    if total > 0 {
        lemma_rank_monotone(total as u64, n1, n2, den);
        lemma_first_reaching_monotone(
            h,
            rank_spec(total as u64, n1, den) as nat,
            rank_spec(total as u64, n2, den) as nat,
            0,
        );
        lemma_first_reaching_nonneg(h, rank_spec(total as u64, n1, den) as nat, 0);
        lemma_upper_bound_monotone(
            first_reaching(h, rank_spec(total as u64, n1, den) as nat, 0),
            first_reaching(h, rank_spec(total as u64, n2, den) as nat, 0),
        );
    }
}

proof fn lemma_total_update(h: Seq<u64>, idx: int, v: u64)
    requires
        0 <= idx < h.len(),
    ensures
        hist_total(h.update(idx, v)) + h[idx] == hist_total(h) + v,
    decreases h.len(),
{
    let u = h.update(idx, v);
    if idx == h.len() - 1 {
        assert(u.drop_last() =~= h.drop_last());
    } else {
        assert(u.drop_last() =~= h.drop_last().update(idx, v));
        lemma_total_update(h.drop_last(), idx, v);
    }
}

/// Recording a sample counts it once: a histogram's total grows by exactly one
/// (unless the bucket's counter is at its largest value and wraps).
pub proof fn lemma_record_counts_one_sample(h: Seq<u64>, idx: int)
    requires
        0 <= idx < h.len(),
        h[idx] < u64::MAX,
    ensures
        hist_total(hist_record(h, idx)) == hist_total(h) + 1,
{
    lemma_total_update(h, idx, bump(h[idx]));
}

/// A histogram of `n` empty buckets but one sample in bucket `idx`.
pub open spec fn single_sample(n: nat, idx: int) -> Seq<u64> {
    Seq::new(n, |i: int| if i == idx { 1u64 } else { 0u64 })
}

proof fn lemma_single_sample_prefix(n: nat, idx: int, i: int)
    requires
        0 <= idx < n,
        0 <= i <= n,
    ensures
        hist_total(single_sample(n, idx).take(i)) == if i > idx {
            1nat
        } else {
            0nat
        },
    decreases i,
{
    let h = single_sample(n, idx);
    if i > 0 {
        assert(h.take(i).drop_last() =~= h.take(i - 1));
        lemma_single_sample_prefix(n, idx, i - 1);
    }
}

proof fn lemma_single_sample_first_reaching(n: nat, idx: int, i: int)
    requires
        0 <= idx < n,
        0 <= i <= idx,
    ensures
        first_reaching(single_sample(n, idx), 1, i) == idx,
    decreases idx - i,
{
    lemma_single_sample_prefix(n, idx, i + 1);
    if i < idx {
        lemma_single_sample_first_reaching(n, idx, i + 1);
    }
}

/// A single sample is reported at its bucket's upper bound by every
/// percentile: with one sample, p50, p95 and p99 all give the bound of the
/// bucket it fell into.
pub proof fn lemma_single_sample_percentile(idx: int, numerator: u64, denominator: u64)
    requires
        0 <= idx < LATENCY_BUCKETS,
        denominator > 0,
    ensures
        percentile_spec(single_sample(LATENCY_BUCKETS as nat, idx), numerator, denominator)
            == latency_upper_bound_spec(idx),
{
    let n = LATENCY_BUCKETS as nat;
    let h = single_sample(n, idx);
    lemma_single_sample_prefix(n, idx, n as int);
    assert(h.take(n as int) =~= h);
    assert(hist_total(h) == 1);
    assert(rank_spec(1, numerator, denominator) == 1);
    lemma_single_sample_first_reaching(n, idx, 0);
}

} // verus!
