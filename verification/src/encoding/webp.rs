//! The WebP quality a request asks for.
use vstd::prelude::*;

verus! {

/// The quality, in percent, that the options give: 100 when lossless,
/// otherwise the requested quality capped at 100, or 85 when none was asked.
pub open spec fn webp_quality_spec(webp_quality: Option<u32>, webp_lossless: bool) -> int {
    if webp_lossless {
        100
    } else {
        match webp_quality {
            None => 85,
            Some(v) => if v < 100 {
                v as int
            } else {
                100
            },
        }
    }
}

/// The WebP quality, in percent, for the encoder: 100 when lossless,
/// otherwise the requested quality capped at 100, or 85 by default.
pub fn calculate_webp_quality(webp_quality: Option<u32>, webp_lossless: bool) -> (q: u8)
    ensures
        q == webp_quality_spec(webp_quality, webp_lossless),
        q <= 100,
{
    if webp_lossless {
        100
    } else {
        match webp_quality {
            None => 85,
            Some(v) => if v < 100 {
                v as u8
            } else {
                100
            },
        }
    }
}

} // verus!
