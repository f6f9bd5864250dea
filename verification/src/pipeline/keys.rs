//! Canonical keys for the query parameters and their aliases.
use crate::text::{chars_eq_str, chars_of};
use vstd::prelude::*;

verus! {

/// Every query parameter the service understands, under one canonical key.
///
/// Several aliases name the same parameter (`w` and `width`, for example).
#[derive(Debug, Clone, Copy, PartialEq, Eq, Structural)]
pub enum ParamKey {
    Width,
    Height,
    Crop,
    Gravity,
    AspectRatio,
    Rotate,
    Background,
    Blur,
    WebpQuality,
    WebpLossless,
    Format,
    Brightness,
    Contrast,
    HueRotate,
    Grayscale,
    Invert,
    Saturation,
    Vibrance,
    Grain,
    GrainGrayscale,
    GrainThreshold,
    ChromaticAberration,
    Debug,
}

/// The key that an alias names, if it names one.
pub open spec fn key_of_alias(alias: Seq<char>) -> Option<ParamKey> {
    if alias == "w"@ || alias == "width"@ {
        Some(ParamKey::Width)
    } else if alias == "h"@ || alias == "height"@ {
        Some(ParamKey::Height)
    } else if alias == "c"@ || alias == "crop"@ {
        Some(ParamKey::Crop)
    } else if alias == "g"@ || alias == "gravity"@ || alias == "pos"@ {
        Some(ParamKey::Gravity)
    } else if alias == "ar"@ || alias == "aspect"@ || alias == "ratio"@ {
        Some(ParamKey::AspectRatio)
    } else if alias == "r"@ || alias == "rotate"@ || alias == "rot"@ {
        Some(ParamKey::Rotate)
    } else if alias == "b"@ || alias == "bg"@ || alias == "background"@ {
        Some(ParamKey::Background)
    } else if alias == "blur"@ || alias == "br"@ || alias == "bl"@ {
        Some(ParamKey::Blur)
    } else if alias == "webp_q"@ || alias == "webp_quality"@ || alias == "wq"@ || alias == "quality"@ {
        Some(ParamKey::WebpQuality)
    } else if alias == "webp_lossless"@ || alias == "wl"@ || alias == "lossless"@ {
        Some(ParamKey::WebpLossless)
    } else if alias == "format"@ || alias == "f"@ {
        Some(ParamKey::Format)
    } else if alias == "brightness"@ || alias == "bright"@ || alias == "bri"@ || alias == "brgt"@ {
        Some(ParamKey::Brightness)
    } else if alias == "contrast"@ || alias == "con"@ || alias == "cnt"@ {
        Some(ParamKey::Contrast)
    } else if alias == "hue"@ || alias == "huerotate"@ || alias == "hue_rotate"@ || alias == "hr"@ {
        Some(ParamKey::HueRotate)
    } else if alias == "grayscale"@ || alias == "gray"@ || alias == "grey"@ || alias == "gs"@ {
        Some(ParamKey::Grayscale)
    } else if alias == "invert"@ || alias == "inv"@ || alias == "negative"@ || alias == "neg"@ {
        Some(ParamKey::Invert)
    } else if alias == "saturation"@ || alias == "sat"@ || alias == "s"@ {
        Some(ParamKey::Saturation)
    } else if alias == "vibrance"@ || alias == "vib"@ || alias == "v"@ {
        Some(ParamKey::Vibrance)
    } else if alias == "grain"@ || alias == "gr"@ || alias == "noise"@ || alias == "n"@ {
        Some(ParamKey::Grain)
    } else if alias == "graingray"@ || alias == "grgs"@ || alias == "graygrain"@ || alias == "grg"@ {
        Some(ParamKey::GrainGrayscale)
    } else if alias == "grainthresh"@ || alias == "grth"@ || alias == "grain_threshold"@ {
        Some(ParamKey::GrainThreshold)
    } else if alias == "ca"@ || alias == "chromatic"@ || alias == "aberration"@ || alias == "chromatic_aberration"@ {
        Some(ParamKey::ChromaticAberration)
    } else if alias == "debug"@ || alias == "dbg"@ {
        Some(ParamKey::Debug)
    } else {
        None
    }
}

impl ParamKey {
    /// Maps a query key to its parameter; `None` when the key is not recognised,
    /// in which case the parser skips it.
    pub fn from_alias(alias: &str) -> (res: Option<Self>)
        ensures
            res == key_of_alias(alias@),
    {
        let a = chars_of(alias);
        let a = a.as_slice();
        if chars_eq_str(a, "w") || chars_eq_str(a, "width") {
            Some(ParamKey::Width)
        } else if chars_eq_str(a, "h") || chars_eq_str(a, "height") {
            Some(ParamKey::Height)
        } else if chars_eq_str(a, "c") || chars_eq_str(a, "crop") {
            Some(ParamKey::Crop)
        } else if chars_eq_str(a, "g") || chars_eq_str(a, "gravity") || chars_eq_str(a, "pos") {
            Some(ParamKey::Gravity)
        } else if chars_eq_str(a, "ar") || chars_eq_str(a, "aspect") || chars_eq_str(a, "ratio") {
            Some(ParamKey::AspectRatio)
        } else if chars_eq_str(a, "r") || chars_eq_str(a, "rotate") || chars_eq_str(a, "rot") {
            Some(ParamKey::Rotate)
        } else if chars_eq_str(a, "b") || chars_eq_str(a, "bg") || chars_eq_str(a, "background") {
            Some(ParamKey::Background)
        } else if chars_eq_str(a, "blur") || chars_eq_str(a, "br") || chars_eq_str(a, "bl") {
            Some(ParamKey::Blur)
        } else if chars_eq_str(a, "webp_q") || chars_eq_str(a, "webp_quality") || chars_eq_str(a, "wq") || chars_eq_str(a, "quality") {
            Some(ParamKey::WebpQuality)
        } else if chars_eq_str(a, "webp_lossless") || chars_eq_str(a, "wl") || chars_eq_str(a, "lossless") {
            Some(ParamKey::WebpLossless)
        } else if chars_eq_str(a, "format") || chars_eq_str(a, "f") {
            Some(ParamKey::Format)
        } else if chars_eq_str(a, "brightness") || chars_eq_str(a, "bright") || chars_eq_str(a, "bri") || chars_eq_str(a, "brgt") {
            Some(ParamKey::Brightness)
        } else if chars_eq_str(a, "contrast") || chars_eq_str(a, "con") || chars_eq_str(a, "cnt") {
            Some(ParamKey::Contrast)
        } else if chars_eq_str(a, "hue") || chars_eq_str(a, "huerotate") || chars_eq_str(a, "hue_rotate") || chars_eq_str(a, "hr") {
            Some(ParamKey::HueRotate)
        } else if chars_eq_str(a, "grayscale") || chars_eq_str(a, "gray") || chars_eq_str(a, "grey") || chars_eq_str(a, "gs") {
            Some(ParamKey::Grayscale)
        } else if chars_eq_str(a, "invert") || chars_eq_str(a, "inv") || chars_eq_str(a, "negative") || chars_eq_str(a, "neg") {
            Some(ParamKey::Invert)
        } else if chars_eq_str(a, "saturation") || chars_eq_str(a, "sat") || chars_eq_str(a, "s") {
            Some(ParamKey::Saturation)
        } else if chars_eq_str(a, "vibrance") || chars_eq_str(a, "vib") || chars_eq_str(a, "v") {
            Some(ParamKey::Vibrance)
        } else if chars_eq_str(a, "grain") || chars_eq_str(a, "gr") || chars_eq_str(a, "noise") || chars_eq_str(a, "n") {
            Some(ParamKey::Grain)
        } else if chars_eq_str(a, "graingray") || chars_eq_str(a, "grgs") || chars_eq_str(a, "graygrain") || chars_eq_str(a, "grg") {
            Some(ParamKey::GrainGrayscale)
        } else if chars_eq_str(a, "grainthresh") || chars_eq_str(a, "grth") || chars_eq_str(a, "grain_threshold") {
            Some(ParamKey::GrainThreshold)
        } else if chars_eq_str(a, "ca") || chars_eq_str(a, "chromatic") || chars_eq_str(a, "aberration") || chars_eq_str(a, "chromatic_aberration") {
            Some(ParamKey::ChromaticAberration)
        } else if chars_eq_str(a, "debug") || chars_eq_str(a, "dbg") {
            Some(ParamKey::Debug)
        } else {
            None
        }
    }
}

} // verus!
