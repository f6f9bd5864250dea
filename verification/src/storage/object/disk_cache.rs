//! The policy of the local disk cache of source bytes.
//!
//! Files are named by a hash of the cache key, expire after a time to live,
//! and are evicted oldest first when the directory holds more than its limit.
//! Eviction scans are amortized: at most one every `EVICTION_SCAN_INTERVAL_MS`.
//! The file system work itself is done around the library.
use vstd::prelude::*;
use crate::storage::object::config::DiskCacheSettings;
use crate::text::{hex_fixed_lower, push_hex_fixed_lower, push_str};

verus! {

/// Milliseconds between two eviction scans.
pub const EVICTION_SCAN_INTERVAL_MS: u64 = 5_000;

/// The local disk cache: where it lives, its limits, and when the next
/// eviction scan may run.
pub struct DiskCache {
    pub dir: String,
    pub ttl_secs: u64,
    pub max_bytes: usize,
    pub next_eviction_scan_ms: u64,
}

impl DiskCache {
    /// A disk cache with the given settings; an eviction scan may run at once.
    pub fn from_settings(settings: DiskCacheSettings) -> (cache: DiskCache)
        ensures
            cache.dir@ == settings.dir@,
            cache.ttl_secs == settings.ttl_secs,
            cache.max_bytes == settings.max_bytes,
            cache.next_eviction_scan_ms == 0,
    {
        DiskCache {
            dir: settings.dir,
            ttl_secs: settings.ttl_secs,
            max_bytes: settings.max_bytes,
            next_eviction_scan_ms: 0,
        }
    }

    /// Whether a file of the given age (in nanoseconds) has outlived the time
    /// to live.
    pub fn is_expired(&self, age_nanos: u128) -> (res: bool)
        ensures
            res == (age_nanos > self.ttl_secs * 1_000_000_000),
    {
        age_nanos > (self.ttl_secs as u128) * 1_000_000_000
    }

    /// Decides whether an eviction scan runs now (`now_ms` since the Unix
    /// epoch); when it does, the next one may run `EVICTION_SCAN_INTERVAL_MS`
    /// later (saturating).
    pub fn should_scan_for_eviction(&mut self, now_ms: u64) -> (scan: bool)
        ensures
            scan == (now_ms >= old(self).next_eviction_scan_ms),
            final(self).next_eviction_scan_ms == if scan {
                if now_ms + EVICTION_SCAN_INTERVAL_MS > u64::MAX {
                    u64::MAX
                } else {
                    (now_ms + EVICTION_SCAN_INTERVAL_MS) as u64
                }
            } else {
                old(self).next_eviction_scan_ms
            },
            final(self).dir == old(self).dir,
            final(self).ttl_secs == old(self).ttl_secs,
            final(self).max_bytes == old(self).max_bytes,
    {
        if now_ms < self.next_eviction_scan_ms {
            return false;
        }
        self.next_eviction_scan_ms = now_ms.saturating_add(EVICTION_SCAN_INTERVAL_MS);
        true
    }

    /// Whether a write should be followed by an eviction scan: the cache has a
    /// limit and a scan is due.
    pub fn should_evict_after_write(&mut self, now_ms: u64) -> (scan: bool)
        ensures
            scan == (old(self).max_bytes > 0 && now_ms >= old(self).next_eviction_scan_ms),
            final(self).next_eviction_scan_ms == if scan {
                if now_ms + EVICTION_SCAN_INTERVAL_MS > u64::MAX {
                    u64::MAX
                } else {
                    (now_ms + EVICTION_SCAN_INTERVAL_MS) as u64
                }
            } else {
                old(self).next_eviction_scan_ms
            },
            final(self).max_bytes == old(self).max_bytes,
    {
        if self.max_bytes == 0 {
            return false;
        }
        self.should_scan_for_eviction(now_ms)
    }
}

/// The name of the file that holds the entry whose key hashes to `hash`:
/// sixteen lower-case hex digits and `.bin`.
pub open spec fn cache_file_name_spec(hash: u64) -> Seq<char> {
    hex_fixed_lower(hash as nat, 16) + ".bin"@
}

/// Names the cache file of a key hash (`{hash:016x}.bin`).
pub fn cache_file_name(hash: u64) -> (name: String)
    ensures
        name@ == cache_file_name_spec(hash),
{
    let mut name = String::new();
    push_hex_fixed_lower(&mut name, hash, 16);
    push_str(&mut name, ".bin");
    name
}

/// The sum of the lengths, saturating at the largest `u64`.
pub open spec fn saturating_total(lens: Seq<u64>) -> u64
    decreases lens.len(),
{
    if lens.len() == 0 {
        0
    } else {
        let t = saturating_total(lens.drop_last());
        if t + lens.last() > u64::MAX {
            u64::MAX
        } else {
            (t + lens.last()) as u64
        }
    }
}

/// Adds up file lengths, saturating.
pub fn total_bytes(lens: &Vec<u64>) -> (total: u64)
    ensures
        total == saturating_total(lens@),
{
    let mut total: u64 = 0;
    let mut i: usize = 0;
    while i < lens.len()
        invariant
            i <= lens@.len(),
            total == saturating_total(lens@.take(i as int)),
        decreases lens.len() - i,
    {
        assert(lens@.take(i + 1).drop_last() =~= lens@.take(i as int));
        total = total.saturating_add(lens[i]);
        i = i + 1;
    }
    assert(lens@.take(lens@.len() as int) =~= lens@);
    total
}

/// The order of modification times: a file without one comes first.
pub open spec fn time_le(a: Option<i128>, b: Option<i128>) -> bool {
    match (a, b) {
        (None, _) => true,
        (Some(_), None) => false,
        (Some(x), Some(y)) => x <= y,
    }
}

/// Strictly earlier in the order of modification times.
pub open spec fn time_lt(a: Option<i128>, b: Option<i128>) -> bool {
    time_le(a, b) && a != b
}

/// Whether file `a` comes before file `b` in eviction order: it is older,
/// or as old and listed first.
pub open spec fn evicted_before(times: Seq<Option<i128>>, a: int, b: int) -> bool {
    time_lt(times[a], times[b]) || (times[a] == times[b] && a < b)
}

/// `order` lists every file exactly once, oldest first, files of equal
/// age in the order in which they were listed (a stable sort by age).
pub open spec fn is_eviction_order(times: Seq<Option<i128>>, order: Seq<usize>) -> bool {
    &&& order.len() == times.len()
    &&& forall|k: int| 0 <= k < order.len() ==> order[k] < times.len()
    &&& forall|i: int, j: int|
        0 <= i < j < order.len() ==> evicted_before(times, order[i] as int, order[j] as int)
}

fn time_less(a: Option<i128>, b: Option<i128>) -> (res: bool)
    ensures
        res == time_lt(a, b),
{
    match (a, b) {
        (None, None) => false,
        (None, Some(_)) => true,
        (Some(_), None) => false,
        (Some(x), Some(y)) => x < y,
    }
}

/// Sorts the files by modification time, oldest first, keeping the listed
/// order among files of equal age: the order in which eviction removes them.
pub fn eviction_order(times: &Vec<Option<i128>>) -> (order: Vec<usize>)
    ensures
        is_eviction_order(times@, order@),
{
    let mut order: Vec<usize> = Vec::new();
    let mut i: usize = 0;
    while i < times.len()
        invariant
            i <= times@.len(),
            order@.len() == i,
            forall|k: int| 0 <= k < order@.len() ==> order@[k] < i,
            forall|a: int, b: int|
                0 <= a < b < order@.len() ==> evicted_before(
                    times@,
                    order@[a] as int,
                    order@[b] as int,
                ),
        decreases times.len() - i,
    {
        let t = times[i];
        let mut q: usize = 0;
        while q < order.len() && !time_less(t, times[order[q]])
            invariant
                q <= order@.len(),
                order@.len() == i,
                i < times@.len(),
                t == times@[i as int],
                forall|k: int| 0 <= k < order@.len() ==> order@[k] < i,
                forall|r: int| 0 <= r < q ==> !time_lt(t, #[trigger] times@[order@[r] as int]),
            decreases order.len() - q,
        {
            q = q + 1;
        }
        let ghost before = order@;
        proof {
            assert forall|r: int| q <= r < before.len() implies time_lt(
                t,
                #[trigger] times@[before[r] as int],
            ) by {
                assert(time_lt(t, times@[before[q as int] as int]));
                if r > q {
                    assert(evicted_before(times@, before[q as int] as int, before[r] as int));
                }
            }
        }
        order.insert(q, i);
        proof {
            assert forall|a: int, b: int| 0 <= a < b < order@.len() implies evicted_before(
                times@,
                order@[a] as int,
                order@[b] as int,
            ) by {
                if b < q {
                    assert(order@[a] == before[a] && order@[b] == before[b]);
                } else if b == q {
                    assert(order@[a] == before[a]);
                    assert(!time_lt(t, times@[before[a] as int]));
                } else if a == q {
                    assert(order@[b] == before[b - 1]);
                } else if a < q {
                    assert(order@[a] == before[a] && order@[b] == before[b - 1]);
                } else {
                    assert(order@[a] == before[a - 1] && order@[b] == before[b - 1]);
                }
            }
        }
        i = i + 1;
    }
    order
}

/// Whether eviction has brought the directory within its limit.
pub fn within_capacity(total: u64, max_bytes: usize) -> (res: bool)
    ensures
        res == (total <= max_bytes),
{
    total <= max_bytes as u64
}

} // verus!
