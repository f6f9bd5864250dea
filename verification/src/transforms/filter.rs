//! Parsers for the integer-valued colour filter parameters.
use crate::text::{chars_of, parse_i32, parse_i32_spec};
use crate::utils::parser::{i32_range_spec, normalize_hue, normalized_hue, parse_i32_range};
use vstd::prelude::*;

verus! {

/// Brightness: an integer from -100 (completely black) to 100 (completely white).
pub fn parse_brightness(value: &str) -> (res: Option<i32>)
    ensures
        res == (match i32_range_spec(value@, -100, 100) {
            Some(v) => Some(v as i32),
            None => None::<i32>,
        }),
{
    parse_i32_range(value, -100, 100)
}

/// The hue rotation a value gives: any `i32`, normalised into `0..360`.
pub open spec fn hue_rotate_spec(value: Seq<char>) -> Option<int> {
    match parse_i32_spec(value) {
        Some(v) => Some(normalized_hue(v)),
        None => None,
    }
}

/// Hue rotation: any integer, normalised to `0..360` by Euclidean remainder.
pub fn parse_hue_rotate(value: &str) -> (res: Option<i32>)
    ensures
        res == (match hue_rotate_spec(value@) {
            Some(v) => Some(v as i32),
            None => None::<i32>,
        }),
{
    let v = chars_of(value);
    match parse_i32(v.as_slice()) {
        Some(h) => Some(normalize_hue(h)),
        None => None,
    }
}

} // verus!
