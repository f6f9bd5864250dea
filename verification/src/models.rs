//! Enumerations that describe how an image is cropped and positioned.
use vstd::prelude::*;

verus! {

/// Where the focus lies when an image is cropped.
///
/// With `Gravity::North` and a crop to smaller dimensions, the top portion
/// of the image is kept and the bottom is cropped.
#[derive(Debug, Clone, Copy, PartialEq, Eq, Structural)]
pub enum Gravity {
    Center,
    North,
    South,
    East,
    West,
}

impl Default for Gravity {
    fn default() -> (g: Self)
        ensures
            g == Gravity::Center,
    {
        Gravity::Center
    }
}

/// How an image is resized to target dimensions.
///
/// - `Fill`: cover the target box, crop excess (the default)
/// - `Fit`: contain within the box, no cropping
/// - `Scale`: stretch to fit
/// - `Pad`: fit within the box, pad with the background colour
/// - `Crop`: same as `Fill`
#[derive(Debug, Clone, Copy, PartialEq, Eq, Structural)]
pub enum CropMode {
    Fill,
    Fit,
    Scale,
    Crop,
    Pad,
}

impl Default for CropMode {
    fn default() -> (m: Self)
        ensures
            m == CropMode::Fill,
    {
        CropMode::Fill
    }
}

} // verus!
