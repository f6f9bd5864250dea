//! Parses a request path such as `w_500,h_300,c_fill,blur_2.5` into transform parameters.
use crate::aliases::{key_of_alias, ParamKey};
use crate::handlers::params::{default_params, FloatParam, FloatValue, Params, ParamsModel};
use crate::models::{CropMode, Gravity};
use crate::text::{
    chars_eq_str, chars_of, copy_range, find, find_char, parse_i32, parse_i32_spec, parse_u32,
    parse_u32_spec, push_chars, push_str, split, split_spec, string_of, trim, trim_start_set,
    trim_start_spec, trim_ws, views, TrimSet, first_kept_from,
};
use crate::pipeline::params::{crop_mode_code_spec, gravity_code_spec, opt_color_spec};
use crate::text::{hex2_lower, hex_char_lower};
use crate::transforms::geometry::gravity_offset_spec;
use crate::transforms::debug::parse_debug;
use crate::transforms::filter::{hue_rotate_spec, parse_brightness, parse_hue_rotate};
use crate::utils::parser::{flag_spec, i32_range_spec, parse_flag};
use vstd::prelude::*;
use vstd::utf8::encode_utf8;

verus! {

// ---------------------------------------------------------------------------
// Single values
// ---------------------------------------------------------------------------

/// A width or height: an integer from 1 to 8192.
pub open spec fn dimension_spec(value: Seq<char>, name: Seq<char>) -> Result<u32, Seq<char>> {
    match parse_u32_spec(value) {
        Some(v) => if 0 < v && v <= 8192 {
            Ok(v as u32)
        } else {
            Err(name + " must be between 1 and 8192"@)
        },
        None => Err("invalid "@ + name + " value: "@ + value),
    }
}

/// Parses a width or height. The 8192 pixel limit keeps requests such as
/// `w_999999999` from exhausting memory.
pub fn parse_dimension(value: &str, name: &str) -> (res: Result<u32, String>)
    ensures
        match res {
            Ok(v) => dimension_spec(value@, name@) == Ok::<u32, Seq<char>>(v),
            Err(e) => dimension_spec(value@, name@) == Err::<u32, Seq<char>>(e@),
        },
{
    let v = chars_of(value);
    match parse_u32(v.as_slice()) {
        Some(n) => if 0 < n && n <= 8192 {
            Ok(n)
        } else {
            let mut e = String::new();
            push_str(&mut e, name);
            push_str(&mut e, " must be between 1 and 8192");
            assert(e@ =~= name@ + " must be between 1 and 8192"@);
            Err(e)
        },
        None => {
            let mut e = String::new();
            push_str(&mut e, "invalid ");
            push_str(&mut e, name);
            push_str(&mut e, " value: ");
            push_str(&mut e, value);
            assert(e@ =~= "invalid "@ + name@ + " value: "@ + value@);
            Err(e)
        },
    }
}

/// An aspect ratio must hold a `:`; it is kept as written.
pub open spec fn aspect_ratio_spec(value: Seq<char>) -> Result<Seq<char>, Seq<char>> {
    if find_char(value, ':') < value.len() {
        Ok(value)
    } else {
        Err("aspect ratio must be in format W:H (e.g., 16:9)"@)
    }
}

/// Checks that an aspect ratio has the form `W:H`; the numbers are read later.
pub fn parse_aspect_ratio(value: &str) -> (res: Result<String, String>)
    ensures
        match res {
            Ok(v) => aspect_ratio_spec(value@) == Ok::<Seq<char>, Seq<char>>(v@),
            Err(e) => aspect_ratio_spec(value@) == Err::<Seq<char>, Seq<char>>(e@),
        },
{
    let v = chars_of(value);
    match find(v.as_slice(), ':') {
        Some(_) => Ok(string_of(v.as_slice())),
        None => {
            let mut e = String::new();
            push_str(&mut e, "aspect ratio must be in format W:H (e.g., 16:9)");
            assert(e@ =~= "aspect ratio must be in format W:H (e.g., 16:9)"@);
            Err(e)
        },
    }
}

/// A rotation: 0, 90, 180 or 270 degrees.
pub open spec fn rotation_spec(value: Seq<char>) -> Result<i32, Seq<char>> {
    match parse_i32_spec(value) {
        Some(v) => if v == 0 || v == 90 || v == 180 || v == 270 {
            Ok(v as i32)
        } else {
            Err("rotation must be 0, 90, 180, or 270"@)
        },
        None => Err("invalid rotation value: "@ + value),
    }
}

/// Parses a right-angle rotation.
pub fn parse_rotation(value: &str) -> (res: Result<i32, String>)
    ensures
        match res {
            Ok(v) => rotation_spec(value@) == Ok::<i32, Seq<char>>(v),
            Err(e) => rotation_spec(value@) == Err::<i32, Seq<char>>(e@),
        },
{
    let v = chars_of(value);
    match parse_i32(v.as_slice()) {
        Some(n) => if n == 0 || n == 90 || n == 180 || n == 270 {
            Ok(n)
        } else {
            let mut e = String::new();
            push_str(&mut e, "rotation must be 0, 90, 180, or 270");
            assert(e@ =~= "rotation must be 0, 90, 180, or 270"@);
            Err(e)
        },
        None => {
            let mut e = String::new();
            push_str(&mut e, "invalid rotation value: ");
            push_str(&mut e, value);
            assert(e@ =~= "invalid rotation value: "@ + value@);
            Err(e)
        },
    }
}

/// The gravity a value names; anything unrecognised means the centre.
pub open spec fn gravity_spec(value: Seq<char>) -> Gravity {
    if value == "n"@ || value == "north"@ || value == "top"@ {
        Gravity::North
    } else if value == "s"@ || value == "south"@ || value == "bottom"@ {
        Gravity::South
    } else if value == "e"@ || value == "east"@ || value == "right"@ {
        Gravity::East
    } else if value == "w"@ || value == "west"@ || value == "left"@ {
        Gravity::West
    } else {
        Gravity::Center
    }
}

/// Parses a gravity: compass letters or names, or `top`, `bottom`, `left`, `right`.
pub fn parse_gravity(value: &str) -> (g: Gravity)
    ensures
        g == gravity_spec(value@),
{
    let v = chars_of(value);
    let v = v.as_slice();
    if chars_eq_str(v, "n") || chars_eq_str(v, "north") || chars_eq_str(v, "top") {
        Gravity::North
    } else if chars_eq_str(v, "s") || chars_eq_str(v, "south") || chars_eq_str(v, "bottom") {
        Gravity::South
    } else if chars_eq_str(v, "e") || chars_eq_str(v, "east") || chars_eq_str(v, "right") {
        Gravity::East
    } else if chars_eq_str(v, "w") || chars_eq_str(v, "west") || chars_eq_str(v, "left") {
        Gravity::West
    } else {
        Gravity::Center
    }
}

/// The crop mode a value names; anything unrecognised means `Fill`.
pub open spec fn crop_mode_spec(value: Seq<char>) -> CropMode {
    if value == "scale"@ {
        CropMode::Scale
    } else if value == "fit"@ {
        CropMode::Fit
    } else if value == "crop"@ {
        CropMode::Crop
    } else if value == "pad"@ {
        CropMode::Pad
    } else {
        CropMode::Fill
    }
}

/// Parses a crop mode: `scale`, `fit`, `crop` or `pad`, else `fill`.
pub fn parse_crop_mode(value: &str) -> (m: CropMode)
    ensures
        m == crop_mode_spec(value@),
{
    let v = chars_of(value);
    let v = v.as_slice();
    if chars_eq_str(v, "scale") {
        CropMode::Scale
    } else if chars_eq_str(v, "fit") {
        CropMode::Fit
    } else if chars_eq_str(v, "crop") {
        CropMode::Crop
    } else if chars_eq_str(v, "pad") {
        CropMode::Pad
    } else {
        CropMode::Fill
    }
}

/// A WebP quality: an integer from 0 to 100.
pub open spec fn webp_quality_spec(value: Seq<char>) -> Result<u32, Seq<char>> {
    match parse_u32_spec(value) {
        Some(v) => if v <= 100 {
            Ok(v as u32)
        } else {
            Err("webp_quality must be between 0 and 100"@)
        },
        None => Err("invalid webp_quality value: "@ + value),
    }
}

/// Parses a WebP quality (100 is best quality and the largest file).
pub fn parse_webp_quality(value: &str) -> (res: Result<u32, String>)
    ensures
        match res {
            Ok(v) => webp_quality_spec(value@) == Ok::<u32, Seq<char>>(v),
            Err(e) => webp_quality_spec(value@) == Err::<u32, Seq<char>>(e@),
        },
{
    let v = chars_of(value);
    match parse_u32(v.as_slice()) {
        Some(n) => if n <= 100 {
            Ok(n)
        } else {
            let mut e = String::new();
            push_str(&mut e, "webp_quality must be between 0 and 100");
            assert(e@ =~= "webp_quality must be between 0 and 100"@);
            Err(e)
        },
        None => {
            let mut e = String::new();
            push_str(&mut e, "invalid webp_quality value: ");
            push_str(&mut e, value);
            assert(e@ =~= "invalid webp_quality value: "@ + value@);
            Err(e)
        },
    }
}

// ---------------------------------------------------------------------------
// Hex colours
// ---------------------------------------------------------------------------

/// The value of an ASCII hex digit byte, either case.
pub open spec fn hex_digit_spec(b: u8) -> Option<u8> {
    if 48 <= b && b <= 57 {
        Some((b - 48) as u8)
    } else if 97 <= b && b <= 102 {
        Some((b - 97 + 10) as u8)
    } else if 65 <= b && b <= 70 {
        Some((b - 65 + 10) as u8)
    } else {
        None
    }
}

/// Parses one hex digit byte.
pub fn parse_hex_digit(b: u8) -> (res: Result<u8, ()>)
    ensures
        match res {
            Ok(d) => hex_digit_spec(b) == Some(d),
            Err(_) => hex_digit_spec(b) is None,
        },
{
    if 48 <= b && b <= 57 {
        Ok(b - 48)
    } else if 97 <= b && b <= 102 {
        Ok(b - 97 + 10)
    } else if 65 <= b && b <= 70 {
        Ok(b - 65 + 10)
    } else {
        Err(())
    }
}

/// Two hex digit bytes as one byte, high digit first.
pub open spec fn hex_pair_spec(b0: u8, b1: u8) -> Option<u8> {
    match (hex_digit_spec(b0), hex_digit_spec(b1)) {
        (Some(h), Some(l)) => Some((h * 16 + l) as u8),
        _ => None,
    }
}

/// Reads the two bytes at `i` as a hex pair.
fn hex_pair(bytes: &[u8], i: usize) -> (res: Option<u8>)
    requires
        i + 1 < bytes@.len(),
    ensures
        res == hex_pair_spec(bytes@[i as int], bytes@[i + 1]),
{
    let b0 = bytes[i];
    let b1 = bytes[i + 1];
    match (parse_hex_digit(b0), parse_hex_digit(b1)) {
        (Ok(h), Ok(l)) => Some(h * 16 + l),
        _ => None,
    }
}

/// The UTF-8 bytes of a colour value after its leading `#`s.
pub open spec fn hex_bytes(value: Seq<char>) -> Seq<u8> {
    encode_utf8(trim_start_spec(TrimSet::Char('#'), value))
}

/// The colour a value writes: 3, 6 or 8 ASCII hex digits after optional `#`s;
/// the short form doubles each digit (`f0a` is `ff00aa`), and alpha defaults
/// to 255. Any other byte, a non-ASCII one included, makes it invalid; the
/// length is counted in UTF-8 bytes.
pub open spec fn hex_color_spec(value: Seq<char>) -> Result<[u8; 4], Seq<char>> {
    let h = hex_bytes(value);
    let bad = "invalid hex color: "@ + value;
    if h.len() == 3 {
        match (hex_digit_spec(h[0]), hex_digit_spec(h[1]), hex_digit_spec(h[2])) {
            (Some(r), Some(g), Some(b)) => Ok(
                [(r * 16 + r) as u8, (g * 16 + g) as u8, (b * 16 + b) as u8, 255u8],
            ),
            _ => Err(bad),
        }
    } else if h.len() == 6 {
        match (hex_pair_spec(h[0], h[1]), hex_pair_spec(h[2], h[3]), hex_pair_spec(h[4], h[5])) {
            (Some(r), Some(g), Some(b)) => Ok([r, g, b, 255u8]),
            _ => Err(bad),
        }
    } else if h.len() == 8 {
        match (
            hex_pair_spec(h[0], h[1]),
            hex_pair_spec(h[2], h[3]),
            hex_pair_spec(h[4], h[5]),
            hex_pair_spec(h[6], h[7]),
        ) {
            (Some(r), Some(g), Some(b), Some(a)) => Ok([r, g, b, a]),
            _ => Err(bad),
        }
    } else {
        Err("hex color must be 3, 6, or 8 chars: "@ + value)
    }
}

fn invalid_hex_color(value: &str) -> (e: String)
    ensures
        e@ == "invalid hex color: "@ + value@,
{
    let mut e = String::new();
    push_str(&mut e, "invalid hex color: ");
    push_str(&mut e, value);
    e
}

/// Parses a hex colour with optional alpha: `f0a`, `ff00aa` or `ff00aaff`,
/// with or without leading `#`.
pub fn parse_hex_color(value: &str) -> (res: Result<[u8; 4], String>)
    ensures
        match res {
            Ok(c) => hex_color_spec(value@) == Ok::<[u8; 4], Seq<char>>(c),
            Err(e) => hex_color_spec(value@) == Err::<[u8; 4], Seq<char>>(e@),
        },
{
    let v = chars_of(value);
    let hc = trim_start_set(TrimSet::Char('#'), v.as_slice());
    let hs = string_of(hc.as_slice());
    let h = hs.as_str().as_bytes();
    assert(h@ == hex_bytes(value@));
    if h.len() == 3 {
        let r = match parse_hex_digit(h[0]) {
            Ok(d) => d * 16 + d,
            Err(_) => return Err(invalid_hex_color(value)),
        };
        let g = match parse_hex_digit(h[1]) {
            Ok(d) => d * 16 + d,
            Err(_) => return Err(invalid_hex_color(value)),
        };
        let b = match parse_hex_digit(h[2]) {
            Ok(d) => d * 16 + d,
            Err(_) => return Err(invalid_hex_color(value)),
        };
        Ok([r, g, b, 255])
    } else if h.len() == 6 {
        let r = match hex_pair(h, 0) {
            Some(x) => x,
            None => return Err(invalid_hex_color(value)),
        };
        let g = match hex_pair(h, 2) {
            Some(x) => x,
            None => return Err(invalid_hex_color(value)),
        };
        let b = match hex_pair(h, 4) {
            Some(x) => x,
            None => return Err(invalid_hex_color(value)),
        };
        Ok([r, g, b, 255])
    } else if h.len() == 8 {
        let r = match hex_pair(h, 0) {
            Some(x) => x,
            None => return Err(invalid_hex_color(value)),
        };
        let g = match hex_pair(h, 2) {
            Some(x) => x,
            None => return Err(invalid_hex_color(value)),
        };
        let b = match hex_pair(h, 4) {
            Some(x) => x,
            None => return Err(invalid_hex_color(value)),
        };
        let a = match hex_pair(h, 6) {
            Some(x) => x,
            None => return Err(invalid_hex_color(value)),
        };
        Ok([r, g, b, a])
    } else {
        let mut e = String::new();
        push_str(&mut e, "hex color must be 3, 6, or 8 chars: ");
        push_str(&mut e, value);
        Err(e)
    }
}

// ---------------------------------------------------------------------------
// The whole path
// ---------------------------------------------------------------------------

/// The fractional parameter a key names, if it names one.
pub open spec fn float_param_of(key: ParamKey) -> Option<FloatParam> {
    match key {
        ParamKey::Blur => Some(FloatParam::Blur),
        ParamKey::Contrast => Some(FloatParam::Contrast),
        ParamKey::Saturation => Some(FloatParam::Saturation),
        ParamKey::Vibrance => Some(FloatParam::Vibrance),
        ParamKey::Grain => Some(FloatParam::Grain),
        ParamKey::GrainGrayscale => Some(FloatParam::GrainGrayscale),
        ParamKey::GrainThreshold => Some(FloatParam::GrainThreshold),
        ParamKey::ChromaticAberration => Some(FloatParam::ChromaticAberration),
        _ => None,
    }
}

/// The parameters after one `key_value` pair has been applied to `m`.
pub open spec fn apply_param(m: ParamsModel, key: ParamKey, value: Seq<char>) -> Result<
    ParamsModel,
    Seq<char>,
> {
    match key {
        ParamKey::Width => match dimension_spec(value, "width"@) {
            Ok(v) => Ok(ParamsModel { width: Some(v), ..m }),
            Err(e) => Err(e),
        },
        ParamKey::Height => match dimension_spec(value, "height"@) {
            Ok(v) => Ok(ParamsModel { height: Some(v), ..m }),
            Err(e) => Err(e),
        },
        ParamKey::Crop => Ok(ParamsModel { crop_mode: crop_mode_spec(value), ..m }),
        ParamKey::Gravity => Ok(ParamsModel { gravity: gravity_spec(value), ..m }),
        ParamKey::AspectRatio => match aspect_ratio_spec(value) {
            Ok(v) => Ok(ParamsModel { aspect: Some(v), ..m }),
            Err(e) => Err(e),
        },
        ParamKey::Rotate => match rotation_spec(value) {
            Ok(v) => Ok(ParamsModel { rotate: Some(v), ..m }),
            Err(e) => Err(e),
        },
        ParamKey::Background => match hex_color_spec(value) {
            Ok(c) => Ok(ParamsModel { background: Some(c), ..m }),
            Err(e) => Err(e),
        },
        ParamKey::WebpQuality => match webp_quality_spec(value) {
            Ok(v) => Ok(ParamsModel { webp_quality: Some(v), ..m }),
            Err(e) => Err(e),
        },
        ParamKey::WebpLossless => Ok(ParamsModel { webp_lossless: flag_spec(value), ..m }),
        ParamKey::Brightness => Ok(
            ParamsModel {
                brightness: match i32_range_spec(value, -100, 100) {
                    Some(v) => Some(v as i32),
                    None => None,
                },
                ..m
            },
        ),
        ParamKey::HueRotate => Ok(
            ParamsModel {
                hue_rotate: match hue_rotate_spec(value) {
                    Some(v) => Some(v as i32),
                    None => None,
                },
                ..m
            },
        ),
        ParamKey::Grayscale => Ok(ParamsModel { grayscale: flag_spec(value), ..m }),
        ParamKey::Invert => Ok(ParamsModel { invert: flag_spec(value), ..m }),
        ParamKey::Debug => Ok(ParamsModel { debug: flag_spec(value), ..m }),
        _ => match float_param_of(key) {
            Some(f) => Ok(ParamsModel { float_values: m.float_values.push((f, value)), ..m }),
            None => Ok(m),
        },
    }
}

/// The key and value of a path segment: the trimmed segment split at its first `_`.
/// Empty segments and segments without `_` have none.
pub open spec fn segment_pair(segment: Seq<char>) -> Option<(Seq<char>, Seq<char>)> {
    let t = trim_ws(segment);
    let i = find_char(t, '_');
    if t.len() == 0 || i >= t.len() {
        None
    } else {
        Some((t.take(i), t.skip(i + 1)))
    }
}

/// The parameters after one path segment; unknown keys are ignored.
pub open spec fn apply_segment(m: ParamsModel, segment: Seq<char>) -> Result<
    ParamsModel,
    Seq<char>,
> {
    match segment_pair(segment) {
        None => Ok(m),
        Some((key, value)) => match key_of_alias(key) {
            Some(k) => apply_param(m, k, value),
            None => Ok(m),
        },
    }
}

/// The parameters after the segments in order; the first error ends the parse.
pub open spec fn apply_segments(m: ParamsModel, segments: Seq<Seq<char>>) -> Result<
    ParamsModel,
    Seq<char>,
>
    decreases segments.len(),
{
    if segments.len() == 0 {
        Ok(m)
    } else {
        match apply_segment(m, segments[0]) {
            Ok(next) => apply_segments(next, segments.drop_first()),
            Err(e) => Err(e),
        }
    }
}

/// Whether a segment names no parameter: it is empty, has no `_`, or its key
/// is no known alias.
pub open spec fn segment_ignored(segment: Seq<char>) -> bool {
    match segment_pair(segment) {
        None => true,
        Some((key, _value)) => key_of_alias(key) is None,
    }
}

/// A segment that names no parameter changes nothing, wherever it stands
/// among the segments.
pub proof fn lemma_unknown_segment_ignored(
    m: ParamsModel,
    before: Seq<Seq<char>>,
    segment: Seq<char>,
    after: Seq<Seq<char>>,
)
    requires
        segment_ignored(segment),
    ensures
        apply_segments(m, before + seq![segment] + after) == apply_segments(m, before + after),
    decreases before.len(),
{
    let with = before + seq![segment] + after;
    let without = before + after;
    if before.len() == 0 {
        assert(with[0] == segment);
        assert(with.drop_first() =~= after);
        assert(without =~= after);
        assert(apply_segment(m, segment) == Ok::<ParamsModel, Seq<char>>(m));
    } else {
        assert(with[0] == before[0]);
        assert(without[0] == before[0]);
        assert(with.drop_first() =~= before.drop_first() + seq![segment] + after);
        assert(without.drop_first() =~= before.drop_first() + after);
        match apply_segment(m, before[0]) {
            Ok(next) => {
                lemma_unknown_segment_ignored(next, before.drop_first(), segment, after);
            },
            Err(_) => {},
        }
    }
}

/// Two segments that set the same parameter to the same value, whichever
/// alias each uses.
pub open spec fn same_setting(s1: Seq<char>, s2: Seq<char>) -> bool {
    match (segment_pair(s1), segment_pair(s2)) {
        (Some((k1, v1)), Some((k2, v2))) => key_of_alias(k1) is Some && key_of_alias(k1)
            == key_of_alias(k2) && v1 == v2,
        _ => false,
    }
}

/// Which alias a segment uses for its parameter does not matter: a segment
/// may be replaced by one that sets the same parameter to the same value.
pub proof fn lemma_alias_choice_irrelevant(
    m: ParamsModel,
    before: Seq<Seq<char>>,
    s1: Seq<char>,
    s2: Seq<char>,
    after: Seq<Seq<char>>,
)
    requires
        same_setting(s1, s2),
    ensures
        apply_segments(m, before + seq![s1] + after) == apply_segments(
            m,
            before + seq![s2] + after,
        ),
    decreases before.len(),
{
    let with1 = before + seq![s1] + after;
    let with2 = before + seq![s2] + after;
    if before.len() == 0 {
        assert(with1[0] == s1);
        assert(with2[0] == s2);
        assert(with1.drop_first() =~= after);
        assert(with2.drop_first() =~= after);
        assert(apply_segment(m, s1) == apply_segment(m, s2));
    } else {
        assert(with1[0] == before[0]);
        assert(with2[0] == before[0]);
        assert(with1.drop_first() =~= before.drop_first() + seq![s1] + after);
        assert(with2.drop_first() =~= before.drop_first() + seq![s2] + after);
        match apply_segment(m, before[0]) {
            Ok(next) => {
                lemma_alias_choice_irrelevant(next, before.drop_first(), s1, s2, after);
            },
            Err(_) => {},
        }
    }
}

proof fn lemma_apply_param_error_independent(m1: ParamsModel, m2: ParamsModel, k: ParamKey, v: Seq<char>)
    ensures
        (apply_param(m1, k, v) is Err) == (apply_param(m2, k, v) is Err),
        apply_param(m1, k, v) is Err ==> apply_param(m1, k, v) == apply_param(m2, k, v),
{
}

/// What an accepted parameter sets, read from the defaults.
spec fn set_value(k: ParamKey, v: Seq<char>) -> ParamsModel {
    apply_param(default_params(), k, v)->Ok_0
}

proof fn lemma_apply_param_frame(m: ParamsModel, k: ParamKey, v: Seq<char>)
    requires
        apply_param(m, k, v) is Ok,
    ensures
        ({
            let r = apply_param(m, k, v)->Ok_0;
            let d = set_value(k, v);
            &&& r.width == (if k == ParamKey::Width { d.width } else { m.width })
            &&& r.height == (if k == ParamKey::Height { d.height } else { m.height })
            &&& r.crop_mode == (if k == ParamKey::Crop { d.crop_mode } else { m.crop_mode })
            &&& r.gravity == (if k == ParamKey::Gravity { d.gravity } else { m.gravity })
            &&& r.aspect == (if k == ParamKey::AspectRatio { d.aspect } else { m.aspect })
            &&& r.rotate == (if k == ParamKey::Rotate { d.rotate } else { m.rotate })
            &&& r.background == (if k == ParamKey::Background { d.background } else { m.background })
            &&& r.webp_quality == (if k == ParamKey::WebpQuality { d.webp_quality } else { m.webp_quality })
            &&& r.webp_lossless == (if k == ParamKey::WebpLossless { d.webp_lossless } else { m.webp_lossless })
            &&& r.brightness == (if k == ParamKey::Brightness { d.brightness } else { m.brightness })
            &&& r.hue_rotate == (if k == ParamKey::HueRotate { d.hue_rotate } else { m.hue_rotate })
            &&& r.grayscale == (if k == ParamKey::Grayscale { d.grayscale } else { m.grayscale })
            &&& r.invert == (if k == ParamKey::Invert { d.invert } else { m.invert })
            &&& r.debug == (if k == ParamKey::Debug { d.debug } else { m.debug })
            &&& r.float_values == (match float_param_of(k) {
                Some(f) => m.float_values.push((f, v)),
                None => m.float_values,
            })
        }),
{
    lemma_apply_param_error_independent(m, default_params(), k, v);
}

proof fn lemma_apply_param_commutes(
    m: ParamsModel,
    k1: ParamKey,
    v1: Seq<char>,
    k2: ParamKey,
    v2: Seq<char>,
)
    requires
        k1 != k2,
        !(float_param_of(k1) is Some && float_param_of(k2) is Some),
        apply_param(m, k1, v1) is Ok,
        apply_param(m, k2, v2) is Ok,
    ensures
        apply_param(apply_param(m, k1, v1)->Ok_0, k2, v2) == apply_param(
            apply_param(m, k2, v2)->Ok_0,
            k1,
            v1,
        ),
{
    let a1 = apply_param(m, k1, v1)->Ok_0;
    let a2 = apply_param(m, k2, v2)->Ok_0;
    lemma_apply_param_error_independent(a1, m, k2, v2);
    lemma_apply_param_error_independent(a2, m, k1, v1);
    lemma_apply_param_frame(m, k1, v1);
    lemma_apply_param_frame(m, k2, v2);
    lemma_apply_param_frame(a1, k2, v2);
    lemma_apply_param_frame(a2, k1, v1);
    let b1 = apply_param(a1, k2, v2)->Ok_0;
    let b2 = apply_param(a2, k1, v1)->Ok_0;
    assert(b1.float_values =~= b2.float_values);
    assert(b1 == b2);
}

/// The parameter a segment sets, if it names one.
pub open spec fn segment_key(segment: Seq<char>) -> Option<ParamKey> {
    match segment_pair(segment) {
        Some((key, _value)) => key_of_alias(key),
        None => None,
    }
}

/// Whether a segment is accepted; that does not depend on the segments before it.
pub open spec fn segment_accepted(segment: Seq<char>) -> bool {
    apply_segment(default_params(), segment) is Ok
}

/// Two segments that do not set the same parameter, and are not both
/// fractional parameters (whose texts are kept in request order).
pub open spec fn independent_segments(s: Seq<char>, t: Seq<char>) -> bool {
    match (segment_key(s), segment_key(t)) {
        (Some(k1), Some(k2)) => k1 != k2 && !(float_param_of(k1) is Some && float_param_of(
            k2,
        ) is Some),
        _ => true,
    }
}

proof fn lemma_segment_error_independent(m1: ParamsModel, m2: ParamsModel, segment: Seq<char>)
    ensures
        (apply_segment(m1, segment) is Err) == (apply_segment(m2, segment) is Err),
        apply_segment(m1, segment) is Err ==> apply_segment(m1, segment) == apply_segment(
            m2,
            segment,
        ),
{
    if let Some((key, value)) = segment_pair(segment) {
        if let Some(k) = key_of_alias(key) {
            lemma_apply_param_error_independent(m1, m2, k, value);
        }
    }
}

proof fn lemma_segment_pair_commutes(m: ParamsModel, s: Seq<char>, t: Seq<char>)
    requires
        independent_segments(s, t),
        apply_segment(m, s) is Ok,
        apply_segment(m, t) is Ok,
    ensures
        apply_segment(apply_segment(m, s)->Ok_0, t) == apply_segment(
            apply_segment(m, t)->Ok_0,
            s,
        ),
{
    if let (Some((ks, vs)), Some((kt, vt))) = (segment_pair(s), segment_pair(t)) {
        if let (Some(k1), Some(k2)) = (key_of_alias(ks), key_of_alias(kt)) {
            lemma_apply_param_commutes(m, k1, vs, k2, vt);
        }
    }
}

/// Parameters do not depend on the order of their segments: two neighbouring
/// segments that set different parameters (not both fractional ones, whose
/// texts keep request order) may be swapped, unless both are refused, in
/// which case the first refusal is reported.
pub proof fn lemma_independent_segments_commute(
    m: ParamsModel,
    before: Seq<Seq<char>>,
    s: Seq<char>,
    t: Seq<char>,
    after: Seq<Seq<char>>,
)
    requires
        independent_segments(s, t),
        segment_accepted(s) || segment_accepted(t),
    ensures
        apply_segments(m, before + seq![s, t] + after) == apply_segments(
            m,
            before + seq![t, s] + after,
        ),
    decreases before.len(),
{
    let x = before + seq![s, t] + after;
    let y = before + seq![t, s] + after;
    if before.len() == 0 {
        reveal_with_fuel(apply_segments, 3);
        assert(x[0] == s);
        assert(x.drop_first()[0] == t);
        assert(x.drop_first().drop_first() =~= after);
        assert(y[0] == t);
        assert(y.drop_first()[0] == s);
        assert(y.drop_first().drop_first() =~= after);
        lemma_segment_error_independent(m, default_params(), s);
        lemma_segment_error_independent(m, default_params(), t);
        if apply_segment(m, s) is Ok && apply_segment(m, t) is Ok {
            let a1 = apply_segment(m, s)->Ok_0;
            let a2 = apply_segment(m, t)->Ok_0;
            lemma_segment_error_independent(a1, m, t);
            lemma_segment_error_independent(a2, m, s);
            lemma_segment_pair_commutes(m, s, t);
        } else if apply_segment(m, s) is Ok {
            let a1 = apply_segment(m, s)->Ok_0;
            lemma_segment_error_independent(a1, m, t);
        } else {
            let a2 = apply_segment(m, t)->Ok_0;
            lemma_segment_error_independent(a2, m, s);
        }
    } else {
        assert(x[0] == before[0]);
        assert(y[0] == before[0]);
        assert(x.drop_first() =~= before.drop_first() + seq![s, t] + after);
        assert(y.drop_first() =~= before.drop_first() + seq![t, s] + after);
        match apply_segment(m, before[0]) {
            Ok(next) => {
                lemma_independent_segments_commute(next, before.drop_first(), s, t, after);
            },
            Err(_) => {},
        }
    }
}

/// What parsing a path gives: its comma-separated segments applied to the defaults.
pub open spec fn parse_params_spec(path: Seq<char>) -> Result<ParamsModel, Seq<char>> {
    apply_segments(default_params(), split_spec(path, ','))
}

/// Applies one known parameter and its value to the parameters.
fn apply_param_value(p: &mut Params, key: ParamKey, value: &str) -> (res: Result<(), String>)
    ensures
        match apply_param(old(p)@, key, value@) {
            Ok(m) => res is Ok && final(p)@ == m,
            Err(e) => match res {
                Err(msg) => msg@ == e && final(p)@ == old(p)@,
                Ok(_) => false,
            },
        },
{
    let ghost start = p@;
    match key {
        ParamKey::Width => {
            let v = parse_dimension(value, "width")?;
            p.width = Some(v);
        },
        ParamKey::Height => {
            let v = parse_dimension(value, "height")?;
            p.height = Some(v);
        },
        ParamKey::Crop => {
            p.crop_mode = parse_crop_mode(value);
        },
        ParamKey::Gravity => {
            p.gravity = parse_gravity(value);
        },
        ParamKey::AspectRatio => {
            let v = parse_aspect_ratio(value)?;
            p.aspect = Some(v);
        },
        ParamKey::Rotate => {
            let v = parse_rotation(value)?;
            p.rotate = Some(v);
        },
        ParamKey::Background => {
            let v = parse_hex_color(value)?;
            p.background = Some(v);
        },
        ParamKey::WebpQuality => {
            let v = parse_webp_quality(value)?;
            p.webp_quality = Some(v);
        },
        ParamKey::WebpLossless => {
            p.webp_lossless = parse_flag(value);
        },
        ParamKey::Brightness => {
            p.brightness = parse_brightness(value);
        },
        ParamKey::HueRotate => {
            p.hue_rotate = parse_hue_rotate(value);
        },
        ParamKey::Grayscale => {
            p.grayscale = parse_flag(value);
        },
        ParamKey::Invert => {
            p.invert = parse_flag(value);
        },
        ParamKey::Debug => {
            p.debug = parse_debug(value);
        },
        _ => {
            let f = match key {
                ParamKey::Blur => FloatParam::Blur,
                ParamKey::Contrast => FloatParam::Contrast,
                ParamKey::Saturation => FloatParam::Saturation,
                ParamKey::Vibrance => FloatParam::Vibrance,
                ParamKey::Grain => FloatParam::Grain,
                ParamKey::GrainGrayscale => FloatParam::GrainGrayscale,
                ParamKey::GrainThreshold => FloatParam::GrainThreshold,
                _ => FloatParam::ChromaticAberration,
            };
            let text = string_of(chars_of(value).as_slice());
            let ghost before = p.float_values@;
            p.float_values.push(FloatValue { param: f, text });
            assert(p.float_values@.map_values(|g: FloatValue| (g.param, g.text@)) =~= before.map_values(
                |g: FloatValue| (g.param, g.text@),
            ).push((f, value@)));
        },
    }
    Ok(())
}

/// Parses a request path of comma-separated `key_value` segments, such as
/// `w_500,h_300,c_fill,blur_2.5`.
///
/// Empty segments, segments without `_` and unknown keys are ignored; a known
/// key with a malformed value makes the whole parse fail with a message.
pub fn parse_params(param_str: &str) -> (res: Result<Params, String>)
    ensures
        match res {
            Ok(p) => parse_params_spec(param_str@) == Ok::<ParamsModel, Seq<char>>(p@),
            Err(e) => parse_params_spec(param_str@) == Err::<ParamsModel, Seq<char>>(e@),
        },
{
    let mut result = Params::default();
    let all = chars_of(param_str);
    let segments = split(all.as_slice(), ',');
    let ghost segs = split_spec(param_str@, ',');
    let mut i: usize = 0;
    assert(segs.skip(0) =~= segs);
    while i < segments.len()
        invariant
            views(segments@) == segs,
            segs == split_spec(param_str@, ','),
            i <= segments@.len(),
            apply_segments(default_params(), segs) == apply_segments(result@, segs.skip(i as int)),
        decreases segments.len() - i,
    {
        let ghost rest = segs.skip(i as int);
        assert(rest[0] == segments@[i as int]@);
        assert(rest.drop_first() =~= segs.skip(i + 1));
        let segment = &segments[i];
        let trimmed = trim(segment.as_slice());
        if trimmed.len() > 0 {
            match find(trimmed.as_slice(), '_') {
                Some(pos) => {
                    let key_chars = copy_range(trimmed.as_slice(), 0, pos);
                    let value_chars = copy_range(trimmed.as_slice(), pos + 1, trimmed.len());
                    assert(key_chars@ =~= trimmed@.take(pos as int));
                    assert(value_chars@ =~= trimmed@.skip(pos + 1));
                    let key_str = string_of(key_chars.as_slice());
                    let value_str = string_of(value_chars.as_slice());
                    match ParamKey::from_alias(key_str.as_str()) {
                        Some(k) => {
                            let r = apply_param_value(&mut result, k, value_str.as_str());
                            match r {
                                Ok(()) => {},
                                Err(e) => {
                                    return Err(e);
                                },
                            }
                        },
                        None => {},
                    }
                },
                None => {},
            }
        }
        i = i + 1;
    }
    Ok(result)
}

/// The views of query pairs.
pub open spec fn pair_views(pairs: Seq<(String, String)>) -> Seq<(Seq<char>, Seq<char>)> {
    pairs.map_values(|p: (String, String)| (p.0@, p.1@))
}

/// The parameters after query pairs in order: a known name sets its
/// parameter as a path segment does, unknown names are ignored, and the first
/// refused value ends the parse.
pub open spec fn apply_pairs(m: ParamsModel, pairs: Seq<(Seq<char>, Seq<char>)>) -> Result<
    ParamsModel,
    Seq<char>,
>
    decreases pairs.len(),
{
    if pairs.len() == 0 {
        Ok(m)
    } else {
        match key_of_alias(pairs[0].0) {
            Some(k) => match apply_param(m, k, pairs[0].1) {
                Ok(next) => apply_pairs(next, pairs.drop_first()),
                Err(e) => Err(e),
            },
            None => apply_pairs(m, pairs.drop_first()),
        }
    }
}

/// Reads query parameters, given as name and value pairs in the order they
/// are applied (a later pair for the same parameter wins). Names are the
/// same aliases as in a path; unknown names are ignored; a known name with a
/// malformed value makes the whole parse fail with a message.
pub fn parse_query_params(pairs: &Vec<(String, String)>) -> (res: Result<Params, String>)
    ensures
        match res {
            Ok(p) => apply_pairs(default_params(), pair_views(pairs@)) == Ok::<
                ParamsModel,
                Seq<char>,
            >(p@),
            Err(e) => apply_pairs(default_params(), pair_views(pairs@)) == Err::<
                ParamsModel,
                Seq<char>,
            >(e@),
        },
{
    let mut result = Params::default();
    let ghost all = pair_views(pairs@);
    let mut i: usize = 0;
    assert(all.skip(0) =~= all);
    while i < pairs.len()
        invariant
            all == pair_views(pairs@),
            i <= pairs@.len(),
            apply_pairs(default_params(), all) == apply_pairs(result@, all.skip(i as int)),
        decreases pairs.len() - i,
    {
        let ghost rest = all.skip(i as int);
        assert(rest[0] == (pairs@[i as int].0@, pairs@[i as int].1@));
        assert(rest.drop_first() =~= all.skip(i + 1));
        let pair = &pairs[i];
        match ParamKey::from_alias(pair.0.as_str()) {
            Some(k) => {
                let r = apply_param_value(&mut result, k, pair.1.as_str());
                match r {
                    Ok(()) => {},
                    Err(e) => {
                        return Err(e);
                    },
                }
            },
            None => {},
        }
        i = i + 1;
    }
    Ok(result)
}

// ---------------------------------------------------------------------------
// What the gravity and crop-mode names mean
// ---------------------------------------------------------------------------

/// The one-letter code a signature writes for a gravity parses back to it.
pub proof fn lemma_gravity_code_round_trip(g: Gravity)
    ensures
        gravity_spec(gravity_code_spec(g)) == g,
{
    reveal_strlit("n");
    reveal_strlit("north");
    reveal_strlit("top");
    reveal_strlit("s");
    reveal_strlit("south");
    reveal_strlit("bottom");
    reveal_strlit("e");
    reveal_strlit("east");
    reveal_strlit("right");
    reveal_strlit("w");
    reveal_strlit("west");
    reveal_strlit("left");
    reveal_strlit("c");
    assert("n"@[0] == 'n');
    assert("north"@[0] == 'n');
    assert("top"@[0] == 't');
    assert("s"@[0] == 's');
    assert("south"@[0] == 's');
    assert("bottom"@[0] == 'b');
    assert("e"@[0] == 'e');
    assert("east"@[0] == 'e');
    assert("right"@[0] == 'r');
    assert("w"@[0] == 'w');
    assert("west"@[0] == 'w');
    assert("left"@[0] == 'l');
    assert("c"@[0] == 'c');
}

/// Each gravity name keeps its side of the image when a crop is cut, for
/// every image and crop size: `n`, `north` and `top` keep the top edge (no
/// vertical offset); `s`, `south` and `bottom` keep the bottom edge; `w`,
/// `west` and `left` keep the left edge; `e`, `east` and `right` keep the
/// right edge. A name that names no side keeps the crop centred.
pub proof fn lemma_gravity_names_keep_their_side(img_size: u32, crop_size: u32, other: Seq<char>)
    requires
        gravity_spec(other) == Gravity::Center,
    ensures
        gravity_offset_spec(img_size, crop_size, gravity_spec("top"@), false) == 0,
        gravity_offset_spec(img_size, crop_size, gravity_spec("north"@), false) == 0,
        gravity_offset_spec(img_size, crop_size, gravity_spec("n"@), false) == 0,
        crop_size < img_size ==> gravity_offset_spec(img_size, crop_size, gravity_spec("bottom"@), false)
            == img_size - crop_size,
        crop_size < img_size ==> gravity_offset_spec(img_size, crop_size, gravity_spec("south"@), false)
            == img_size - crop_size,
        crop_size < img_size ==> gravity_offset_spec(img_size, crop_size, gravity_spec("s"@), false)
            == img_size - crop_size,
        gravity_offset_spec(img_size, crop_size, gravity_spec("left"@), true) == 0,
        gravity_offset_spec(img_size, crop_size, gravity_spec("west"@), true) == 0,
        gravity_offset_spec(img_size, crop_size, gravity_spec("w"@), true) == 0,
        crop_size < img_size ==> gravity_offset_spec(img_size, crop_size, gravity_spec("right"@), true)
            == img_size - crop_size,
        crop_size < img_size ==> gravity_offset_spec(img_size, crop_size, gravity_spec("east"@), true)
            == img_size - crop_size,
        crop_size < img_size ==> gravity_offset_spec(img_size, crop_size, gravity_spec("e"@), true)
            == img_size - crop_size,
        crop_size < img_size ==> gravity_offset_spec(img_size, crop_size, gravity_spec(other), true)
            == (img_size - crop_size) / 2,
        crop_size < img_size ==> gravity_offset_spec(img_size, crop_size, gravity_spec(other), false)
            == (img_size - crop_size) / 2,
{
    reveal_strlit("n");
    reveal_strlit("north");
    reveal_strlit("top");
    reveal_strlit("s");
    reveal_strlit("south");
    reveal_strlit("bottom");
    reveal_strlit("e");
    reveal_strlit("east");
    reveal_strlit("right");
    reveal_strlit("w");
    reveal_strlit("west");
    reveal_strlit("left");
    reveal_strlit("c");
    assert("n"@[0] == 'n');
    assert("north"@[0] == 'n');
    assert("top"@[0] == 't');
    assert("s"@[0] == 's');
    assert("south"@[0] == 's');
    assert("bottom"@[0] == 'b');
    assert("e"@[0] == 'e');
    assert("east"@[0] == 'e');
    assert("right"@[0] == 'r');
    assert("w"@[0] == 'w');
    assert("west"@[0] == 'w');
    assert("left"@[0] == 'l');
    assert("c"@[0] == 'c');
}

/// The name a signature writes for a crop mode parses back to it, so each
/// mode has its own name: `scale` stretches, `fit` contains, `crop` and
/// `fill` cover, `pad` pads.
pub proof fn lemma_crop_mode_code_round_trip(m: CropMode)
    ensures
        crop_mode_spec(crop_mode_code_spec(m)) == m,
{
    reveal_strlit("scale");
    reveal_strlit("fit");
    reveal_strlit("crop");
    reveal_strlit("pad");
    reveal_strlit("fill");
    assert("scale"@[0] == 's');
    assert("fit"@[0] == 'f');
    assert("crop"@[0] == 'c');
    assert("pad"@[0] == 'p');
    assert("fill"@[0] == 'f');
    assert("fill"@[1] == 'i');
    assert("fit"@[1] == 'i');
    assert("fill"@[2] == 'l');
    assert("fit"@[2] == 't');
}

// ---------------------------------------------------------------------------
// What a colour value means
// ---------------------------------------------------------------------------

proof fn lemma_hex_char_facts(d: int)
    requires
        0 <= d < 16,
    ensures
        (hex_char_lower(d) as u32) < 128,
        hex_char_lower(d) != '#',
        hex_digit_spec((hex_char_lower(d) as u32) as u8) == Some(d as u8),
{
    assert(hex_char_lower(d) as int == (if d < 10 {
        d + 48
    } else {
        d + 87
    }));
}

proof fn lemma_ascii_utf8(v: Seq<char>)
    requires
        forall|i: int| 0 <= i < v.len() ==> (#[trigger] v[i] as u32) < 128,
    ensures
        encode_utf8(v).len() == v.len(),
        forall|i: int| 0 <= i < v.len() ==> #[trigger] encode_utf8(v)[i] == (v[i] as u32) as u8,
    decreases v.len(),
{
    if v.len() > 0 {
        let c = v[0] as u32;
        assert(c < 128);
        assert((c & 0x7F) as u8 == c as u8) by (bit_vector)
            requires
                c < 128,
        ;
        assert forall|i: int| 0 <= i < v.drop_first().len() implies (#[trigger] v.drop_first()[i]
            as u32) < 128 by {
            assert(v.drop_first()[i] == v[i + 1]);
        }
        lemma_ascii_utf8(v.drop_first());
        assert forall|i: int| 0 <= i < v.len() implies #[trigger] encode_utf8(v)[i] == (v[i] as u32) as u8 by {
            if i > 0 {
                assert(v.drop_first()[i - 1] == v[i]);
            }
        }
    }
}

/// The bytes of a value written in lower-case hex digits are those digits.
proof fn lemma_lower_hex_bytes(v: Seq<char>, digits: Seq<int>)
    requires
        v.len() == digits.len(),
        forall|i: int| 0 <= i < v.len() ==> 0 <= #[trigger] digits[i] < 16,
        forall|i: int| 0 <= i < v.len() ==> #[trigger] v[i] == hex_char_lower(digits[i]),
    ensures
        hex_bytes(v).len() == v.len(),
        forall|i: int| 0 <= i < v.len() ==> hex_digit_spec(#[trigger] hex_bytes(v)[i]) == Some(
            digits[i] as u8,
        ),
{
    assert forall|i: int| 0 <= i < v.len() implies (#[trigger] v[i] as u32) < 128
        && v[i] != '#' && hex_digit_spec((v[i] as u32) as u8) == Some(digits[i] as u8) by {
        lemma_hex_char_facts(digits[i]);
    }
    if v.len() > 0 {
        assert(first_kept_from(TrimSet::Char('#'), v, 0) == 0);
    }
    assert(trim_start_spec(TrimSet::Char('#'), v) =~= v);
    lemma_ascii_utf8(v);
}

/// A colour written as eight lower-case hex digits, as a signature writes it,
/// reads back as the same colour: red, green, blue and alpha, in that order,
/// each from its pair of digits, high digit first.
pub proof fn lemma_hex_color_reads_rgba(c: [u8; 4])
    ensures
        hex_color_spec(opt_color_spec(Some(c))) == Ok::<[u8; 4], Seq<char>>(c),
{
    let v = opt_color_spec(Some(c));
    let digits = seq![
        (c[0] / 16) as int, (c[0] % 16) as int,
        (c[1] / 16) as int, (c[1] % 16) as int,
        (c[2] / 16) as int, (c[2] % 16) as int,
        (c[3] / 16) as int, (c[3] % 16) as int,
    ];
    assert(v =~= Seq::new(8, |i: int| hex_char_lower(digits[i])));
    lemma_lower_hex_bytes(v, digits);
    let h = hex_bytes(v);
    assert(hex_digit_spec(h[0]) == Some((c[0] / 16) as u8));
    assert(hex_digit_spec(h[1]) == Some((c[0] % 16) as u8));
    assert(hex_digit_spec(h[2]) == Some((c[1] / 16) as u8));
    assert(hex_digit_spec(h[3]) == Some((c[1] % 16) as u8));
    assert(hex_digit_spec(h[4]) == Some((c[2] / 16) as u8));
    assert(hex_digit_spec(h[5]) == Some((c[2] % 16) as u8));
    assert(hex_digit_spec(h[6]) == Some((c[3] / 16) as u8));
    assert(hex_digit_spec(h[7]) == Some((c[3] % 16) as u8));
    assert([c[0], c[1], c[2], c[3]] =~= c);
}

/// A colour written as six lower-case hex digits reads as red, green and
/// blue, in that order, each from its pair of digits, high digit first, with
/// alpha 255.
pub proof fn lemma_hex_color_reads_rgb(r: u8, g: u8, b: u8)
    ensures
        hex_color_spec(hex2_lower(r) + hex2_lower(g) + hex2_lower(b)) == Ok::<[u8; 4], Seq<char>>(
            [r, g, b, 255u8],
        ),
{
    let v = hex2_lower(r) + hex2_lower(g) + hex2_lower(b);
    let digits = seq![
        (r / 16) as int, (r % 16) as int,
        (g / 16) as int, (g % 16) as int,
        (b / 16) as int, (b % 16) as int,
    ];
    assert(v =~= Seq::new(6, |i: int| hex_char_lower(digits[i])));
    lemma_lower_hex_bytes(v, digits);
    let h = hex_bytes(v);
    assert(hex_digit_spec(h[0]) == Some((r / 16) as u8));
    assert(hex_digit_spec(h[1]) == Some((r % 16) as u8));
    assert(hex_digit_spec(h[2]) == Some((g / 16) as u8));
    assert(hex_digit_spec(h[3]) == Some((g % 16) as u8));
    assert(hex_digit_spec(h[4]) == Some((b / 16) as u8));
    assert(hex_digit_spec(h[5]) == Some((b % 16) as u8));
}

/// A colour written as three lower-case hex digits doubles each: the digit
/// `d` gives the byte `17 * d`, red, green and blue in that order, alpha 255.
pub proof fn lemma_hex_color_reads_short(r: u8, g: u8, b: u8)
    requires
        r < 16,
        g < 16,
        b < 16,
    ensures
        hex_color_spec(seq![hex_char_lower(r as int), hex_char_lower(g as int), hex_char_lower(b as int)])
            == Ok::<[u8; 4], Seq<char>>([(17 * r) as u8, (17 * g) as u8, (17 * b) as u8, 255u8]),
{
    let v = seq![hex_char_lower(r as int), hex_char_lower(g as int), hex_char_lower(b as int)];
    let digits = seq![r as int, g as int, b as int];
    lemma_lower_hex_bytes(v, digits);
    let h = hex_bytes(v);
    assert(hex_digit_spec(h[0]) == Some(r));
    assert(hex_digit_spec(h[1]) == Some(g));
    assert(hex_digit_spec(h[2]) == Some(b));
}

} // verus!
