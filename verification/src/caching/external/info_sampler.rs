//! Figures read from the external store's `INFO` report.
//!
//! The report is sampled periodically around the library; the library reads
//! the memory in use and the evicted keys out of it.
use vstd::prelude::*;
use crate::observability::metrics::cache::set_external_cache_stats;
use crate::observability::metrics::registry::{Metrics, MetricsView};
use crate::text;
use crate::text::{chars_of, lines, lines_spec, parse_u64_spec, push_char, strip_prefix, strip_prefix_spec, trim, trim_ws, views};

verus! {

/// The value on the first of `lines[i..]` that reads `{key}:` and a number
/// (white space around the number allowed).
pub open spec fn info_value_from(lines: Seq<Seq<char>>, pattern: Seq<char>, i: int) -> Option<nat>
    decreases lines.len() - i,
{
    if i < 0 || i >= lines.len() {
        None
    } else {
        match strip_prefix_spec(lines[i], pattern) {
            Some(rest) => match parse_u64_spec(trim_ws(rest)) {
                Some(n) => Some(n),
                None => info_value_from(lines, pattern, i + 1),
            },
            None => info_value_from(lines, pattern, i + 1),
        }
    }
}

/// The number of the first line of `info` that reads `{key}:` and a number.
pub open spec fn info_value(info: Seq<char>, key: Seq<char>) -> Option<nat> {
    info_value_from(lines_spec(info), key.push(':'), 0)
}

/// Extracts a numeric value from an `INFO` report, whose lines read `key:value`.
pub fn parse_info_u64(info: &str, key: &str) -> (res: Option<u64>)
    ensures
        match res {
            Some(v) => info_value(info@, key@) == Some(v as nat),
            None => info_value(info@, key@) is None,
        },
{
    let mut pattern = chars_of(key);
    pattern.push(':');
    let ghost pat = key@.push(':');
    assert(pattern@ =~= pat);
    let chars = chars_of(info);
    let all = lines(chars.as_slice());
    let ghost ls = lines_spec(info@);
    let mut i: usize = 0;
    while i < all.len()
        invariant
            i <= all@.len(),
            views(all@) == ls,
            pattern@ == pat,
            info_value(info@, key@) == info_value_from(ls, pat, i as int),
        decreases all.len() - i,
    {
        assert(ls[i as int] == all@[i as int]@);
        match strip_prefix(all[i].as_slice(), pattern.as_slice()) {
            Some(rest) => {
                let t = trim(rest.as_slice());
                match text::parse_u64(t.as_slice()) {
                    Some(n) => {
                        return Some(n);
                    },
                    None => {},
                }
            },
            None => {},
        }
        i = i + 1;
    }
    None
}

/// The memory in use that a report gives, as a `usize` (saturating), zero
/// when it gives none.
pub open spec fn used_memory_of(info: Seq<char>) -> usize {
    match info_value(info, "used_memory"@) {
        Some(n) => if n <= usize::MAX {
            n as usize
        } else {
            usize::MAX
        },
        None => 0,
    }
}

/// The evicted keys that a report gives, zero when it gives none.
pub open spec fn evicted_keys_of(info: Seq<char>) -> u64 {
    match info_value(info, "evicted_keys"@) {
        Some(n) => n as u64,
        None => 0,
    }
}

/// Records the memory in use and the evicted keys of an `INFO` report.
pub fn apply_info_sample(metrics: &mut Metrics, info: &str)
    ensures
        final(metrics)@ == (MetricsView {
            external_cache_memory_bytes: used_memory_of(info@),
            external_cache_evicted_keys: evicted_keys_of(info@),
            ..old(metrics)@
        }),
{
    let used = match parse_info_u64(info, "used_memory") {
        Some(n) => if n as u128 <= usize::MAX as u128 {
            n as usize
        } else {
            usize::MAX
        },
        None => 0,
    };
    let evicted = match parse_info_u64(info, "evicted_keys") {
        Some(n) => n,
        None => 0,
    };
    set_external_cache_stats(metrics, used, evicted);
}

} // verus!
