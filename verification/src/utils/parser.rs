//! Parsers for flag and bounded-integer query values.
use crate::text::{chars_eq_str, chars_of, lower_seq, parse_i32, parse_i32_spec, to_ascii_lowercase};
use vstd::prelude::*;

verus! {

/// A flag is on when its value, lower-cased, is `1`, `true`, `yes` or `on`.
pub open spec fn flag_spec(value: Seq<char>) -> bool {
    let l = lower_seq(value);
    l == "1"@ || l == "true"@ || l == "yes"@ || l == "on"@
}

/// Parses a boolean flag: `1`, `true`, `yes` or `on` in any ASCII case turn it on,
/// every other value turns it off.
pub fn parse_flag(value: &str) -> (res: bool)
    ensures
        res == flag_spec(value@),
{
    let v = chars_of(value);
    let l = to_ascii_lowercase(v.as_slice());
    let l = l.as_slice();
    chars_eq_str(l, "1") || chars_eq_str(l, "true") || chars_eq_str(l, "yes") || chars_eq_str(
        l,
        "on",
    )
}

/// An `i32` within `min..=max`, when `value` parses as one.
pub open spec fn i32_range_spec(value: Seq<char>, min: int, max: int) -> Option<int> {
    match parse_i32_spec(value) {
        Some(v) => if min <= v && v <= max {
            Some(v)
        } else {
            None
        },
        None => None,
    }
}

/// Parses an `i32` and keeps it only when it lies within `min..=max`.
pub fn parse_i32_range(value: &str, min: i32, max: i32) -> (res: Option<i32>)
    ensures
        res == (match i32_range_spec(value@, min as int, max as int) {
            Some(v) => Some(v as i32),
            None => None::<i32>,
        }),
{
    let v = chars_of(value);
    match parse_i32(v.as_slice()) {
        Some(n) => if min <= n && n <= max {
            Some(n)
        } else {
            None
        },
        None => None,
    }
}

/// A hue in degrees brought into `0..360` (Euclidean remainder).
pub open spec fn normalized_hue(h: int) -> int {
    h % 360
}

/// Normalises a hue rotation into `0..360`, as `i32::rem_euclid(360)` does.
pub fn normalize_hue(h: i32) -> (res: i32)
    ensures
        res == normalized_hue(h as int),
        0 <= res < 360,
{
    let r: i32 = h % 360;
    if r < 0 {
        r + 360
    } else {
        r
    }
}

} // verus!
