//! The transform parameters parsed from a request path.
use crate::models::{CropMode, Gravity};
use vstd::prelude::*;

verus! {

/// The parameters whose values are fractional numbers. Their text is kept as
/// given, in request order, for the caller to read as numbers.
#[derive(Debug, Clone, Copy, PartialEq, Eq, Structural)]
pub enum FloatParam {
    Blur,
    Contrast,
    Saturation,
    Vibrance,
    Grain,
    GrainGrayscale,
    GrainThreshold,
    ChromaticAberration,
}

/// One fractional parameter as it appeared in the request.
#[derive(Debug)]
pub struct FloatValue {
    pub param: FloatParam,
    pub text: String,
}

/// The transform parameters of a request.
///
/// `Option` separates "not specified" from "specified as the default".
/// `crop_mode` defaults to `Fill` and `gravity` to `Center`.
#[derive(Debug)]
pub struct Params {
    pub width: Option<u32>,
    pub height: Option<u32>,
    pub crop_mode: CropMode,
    pub gravity: Gravity,
    pub aspect: Option<String>,
    pub rotate: Option<i32>,
    pub background: Option<[u8; 4]>,
    pub webp_quality: Option<u32>,
    pub webp_lossless: bool,
    pub brightness: Option<i32>,
    pub hue_rotate: Option<i32>,
    pub grayscale: bool,
    pub invert: bool,
    pub debug: bool,
    /// The fractional parameters (blur, contrast, saturation, vibrance, grain,
    /// grain threshold, chromatic aberration), in the order the request gave them.
    pub float_values: Vec<FloatValue>,
}

/// The mathematical value of `Params`.
pub struct ParamsModel {
    pub width: Option<u32>,
    pub height: Option<u32>,
    pub crop_mode: CropMode,
    pub gravity: Gravity,
    pub aspect: Option<Seq<char>>,
    pub rotate: Option<i32>,
    pub background: Option<[u8; 4]>,
    pub webp_quality: Option<u32>,
    pub webp_lossless: bool,
    pub brightness: Option<i32>,
    pub hue_rotate: Option<i32>,
    pub grayscale: bool,
    pub invert: bool,
    pub debug: bool,
    pub float_values: Seq<(FloatParam, Seq<char>)>,
}

/// The view of an optional string.
pub open spec fn opt_string_view(s: Option<String>) -> Option<Seq<char>> {
    match s {
        Some(t) => Some(t@),
        None => None,
    }
}

impl View for Params {
    type V = ParamsModel;

    open spec fn view(&self) -> ParamsModel {
        ParamsModel {
            width: self.width,
            height: self.height,
            crop_mode: self.crop_mode,
            gravity: self.gravity,
            aspect: opt_string_view(self.aspect),
            rotate: self.rotate,
            background: self.background,
            webp_quality: self.webp_quality,
            webp_lossless: self.webp_lossless,
            brightness: self.brightness,
            hue_rotate: self.hue_rotate,
            grayscale: self.grayscale,
            invert: self.invert,
            debug: self.debug,
            float_values: self.float_values@.map_values(|f: FloatValue| (f.param, f.text@)),
        }
    }
}

/// The parameters of a request that specifies nothing.
pub open spec fn default_params() -> ParamsModel {
    ParamsModel {
        width: None,
        height: None,
        crop_mode: CropMode::Fill,
        gravity: Gravity::Center,
        aspect: None,
        rotate: None,
        background: None,
        webp_quality: None,
        webp_lossless: false,
        brightness: None,
        hue_rotate: None,
        grayscale: false,
        invert: false,
        debug: false,
        float_values: Seq::empty(),
    }
}

impl Default for Params {
    fn default() -> (p: Self)
        ensures
            p@ == default_params(),
    {
        let p = Params {
            width: None,
            height: None,
            crop_mode: CropMode::Fill,
            gravity: Gravity::Center,
            aspect: None,
            rotate: None,
            background: None,
            webp_quality: None,
            webp_lossless: false,
            brightness: None,
            hue_rotate: None,
            grayscale: false,
            invert: false,
            debug: false,
            float_values: Vec::new(),
        };
        assert(p@.float_values =~= Seq::<(FloatParam, Seq<char>)>::empty());
        p
    }
}

} // verus!
