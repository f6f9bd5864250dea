//! The pieces of the transform cache signature.
//!
//! A signature names every transform parameter in a fixed order, so cache keys
//! do not depend on query order or on which alias a request used.
use crate::models::{CropMode, Gravity};
use crate::text::{
    all_digits, decimal, hex2_lower, hex_char_lower, lemma_decimal_injective, lemma_decimal_value,
    lemma_hex2_lower_injective, push_char, push_decimal, push_hex2_lower, push_str,
    signed_decimal,
};
use vstd::prelude::*;

verus! {

/// An optional unsigned value in a signature: its decimal digits, or `-`.
pub open spec fn opt_u32_spec(value: Option<u32>) -> Seq<char> {
    match value {
        Some(v) => decimal(v as nat),
        None => "-"@,
    }
}

/// Writes an optional unsigned value for a signature.
pub fn opt_u32(value: Option<u32>) -> (s: String)
    ensures
        s@ == opt_u32_spec(value),
{
    let mut s = String::new();
    match value {
        Some(v) => push_decimal(&mut s, v as u64),
        None => push_str(&mut s, "-"),
    }
    assert(s@ =~= opt_u32_spec(value));
    s
}

/// An optional signed value in a signature: `-` and digits when negative, or `-` when absent.
pub open spec fn opt_i32_spec(value: Option<i32>) -> Seq<char> {
    match value {
        Some(v) => signed_decimal(v as int),
        None => "-"@,
    }
}

/// Writes an optional signed value for a signature.
pub fn opt_i32(value: Option<i32>) -> (s: String)
    ensures
        s@ == opt_i32_spec(value),
{
    let mut s = String::new();
    match value {
        Some(v) => {
            if v < 0 {
                push_char(&mut s, '-');
                let m: i64 = -(v as i64);
                push_decimal(&mut s, m as u64);
            } else {
                push_decimal(&mut s, v as u64);
            }
        },
        None => push_str(&mut s, "-"),
    }
    assert(s@ =~= opt_i32_spec(value));
    s
}

/// An optional text in a signature: the text, or `-`.
pub open spec fn opt_str_spec(value: Option<Seq<char>>) -> Seq<char> {
    match value {
        Some(v) => v,
        None => "-"@,
    }
}

/// Writes an optional text for a signature.
pub fn opt_str(value: Option<&str>) -> (s: String)
    ensures
        s@ == opt_str_spec(
            match value {
                Some(v) => Some(v@),
                None => None,
            },
        ),
{
    let mut s = String::new();
    match value {
        Some(v) => push_str(&mut s, v),
        None => push_str(&mut s, "-"),
    }
    assert(s@ =~= opt_str_spec(
        match value {
            Some(v) => Some(v@),
            None => None,
        },
    ));
    s
}

/// A flag in a signature: `1` or `0`.
pub fn bool_code(value: bool) -> (s: &'static str)
    ensures
        s@ == (if value {
            "1"@
        } else {
            "0"@
        }),
{
    if value {
        "1"
    } else {
        "0"
    }
}

/// An optional colour in a signature: eight lower-case hex digits, or `-`.
pub open spec fn opt_color_spec(value: Option<[u8; 4]>) -> Seq<char> {
    match value {
        Some(c) => hex2_lower(c[0]) + hex2_lower(c[1]) + hex2_lower(c[2]) + hex2_lower(c[3]),
        None => "-"@,
    }
}

/// Writes an optional colour for a signature.
pub fn opt_color(value: Option<[u8; 4]>) -> (s: String)
    ensures
        s@ == opt_color_spec(value),
{
    let mut s = String::new();
    match value {
        Some(c) => {
            push_hex2_lower(&mut s, c[0]);
            push_hex2_lower(&mut s, c[1]);
            push_hex2_lower(&mut s, c[2]);
            push_hex2_lower(&mut s, c[3]);
        },
        None => push_str(&mut s, "-"),
    }
    assert(s@ =~= opt_color_spec(value));
    s
}

/// The one-letter code of a gravity.
pub open spec fn gravity_code_spec(gravity: Gravity) -> Seq<char> {
    match gravity {
        Gravity::Center => "c"@,
        Gravity::North => "n"@,
        Gravity::South => "s"@,
        Gravity::East => "e"@,
        Gravity::West => "w"@,
    }
}

/// Writes the code of a gravity for a signature.
pub fn gravity_code(gravity: Gravity) -> (s: &'static str)
    ensures
        s@ == gravity_code_spec(gravity),
{
    match gravity {
        Gravity::Center => "c",
        Gravity::North => "n",
        Gravity::South => "s",
        Gravity::East => "e",
        Gravity::West => "w",
    }
}

/// The name of a crop mode.
pub open spec fn crop_mode_code_spec(crop_mode: CropMode) -> Seq<char> {
    match crop_mode {
        CropMode::Fill => "fill"@,
        CropMode::Fit => "fit"@,
        CropMode::Scale => "scale"@,
        CropMode::Crop => "crop"@,
        CropMode::Pad => "pad"@,
    }
}

/// Writes the name of a crop mode for a signature.
pub fn crop_mode_code(crop_mode: CropMode) -> (s: &'static str)
    ensures
        s@ == crop_mode_code_spec(crop_mode),
{
    match crop_mode {
        CropMode::Fill => "fill",
        CropMode::Fit => "fit",
        CropMode::Scale => "scale",
        CropMode::Crop => "crop",
        CropMode::Pad => "pad",
    }
}

/// The view of an optional string.
pub open spec fn opt_text(value: Option<String>) -> Option<Seq<char>> {
    match value {
        Some(v) => Some(v@),
        None => None,
    }
}

/// Normalized transform parameters.
///
/// The fractional parameters are held as the text the signature gives them:
/// the value with four decimals (`{:.4}`), rendered where the value is
/// parsed. Only whether they are present, and that text, matter here.
pub struct Params {
    pub width: Option<u32>,
    pub height: Option<u32>,
    pub crop_mode: CropMode,
    pub gravity: Gravity,
    pub aspect: Option<String>,
    pub rotate: Option<i32>,
    pub background: Option<[u8; 4]>,
    pub blur: Option<String>,
    pub webp_quality: Option<u32>,
    pub webp_lossless: bool,
    pub brightness: Option<i32>,
    pub contrast: Option<String>,
    pub hue_rotate: Option<i32>,
    pub grayscale: bool,
    pub invert: bool,
    pub saturation: Option<String>,
    pub vibrance: Option<String>,
    pub grain: Option<String>,
    pub grain_grayscale: Option<String>,
    pub grain_threshold: String,
    pub chromatic_aberration: Option<String>,
    pub debug: bool,
}

/// `1` or `0`.
pub open spec fn bool_code_spec(value: bool) -> Seq<char> {
    if value {
        "1"@
    } else {
        "0"@
    }
}

/// The labels of the signature's values, in signature order.
pub open spec fn signature_labels() -> Seq<Seq<char>> {
    seq![
        "w"@,
        "h"@,
        "crop"@,
        "g"@,
        "ar"@,
        "rot"@,
        "bg"@,
        "blur"@,
        "wq"@,
        "wl"@,
        "bri"@,
        "con"@,
        "hue"@,
        "gs"@,
        "inv"@,
        "sat"@,
        "vib"@,
        "gr"@,
        "grg"@,
        "grth"@,
        "ca"@,
        "dbg"@,
    ]
}

/// The values of the parameters as the signature writes them, in the order
/// of `signature_labels`.
pub open spec fn signature_values(p: &Params) -> Seq<Seq<char>> {
    seq![
        opt_u32_spec(p.width),
        opt_u32_spec(p.height),
        crop_mode_code_spec(p.crop_mode),
        gravity_code_spec(p.gravity),
        opt_str_spec(opt_text(p.aspect)),
        opt_i32_spec(p.rotate),
        opt_color_spec(p.background),
        opt_str_spec(opt_text(p.blur)),
        opt_u32_spec(p.webp_quality),
        bool_code_spec(p.webp_lossless),
        opt_i32_spec(p.brightness),
        opt_str_spec(opt_text(p.contrast)),
        opt_i32_spec(p.hue_rotate),
        bool_code_spec(p.grayscale),
        bool_code_spec(p.invert),
        opt_str_spec(opt_text(p.saturation)),
        opt_str_spec(opt_text(p.vibrance)),
        opt_str_spec(opt_text(p.grain)),
        opt_str_spec(opt_text(p.grain_grayscale)),
        p.grain_threshold@,
        opt_str_spec(opt_text(p.chromatic_aberration)),
        bool_code_spec(p.debug),
    ]
}

/// One labelled value: `|`, the label, `=`, the value.
pub open spec fn signature_part(label: Seq<char>, value: Seq<char>) -> Seq<char> {
    seq!['|'] + label + seq!['='] + value
}

/// The labelled values one after the other, each label paired with the value
/// at the same place.
pub open spec fn labelled_values(labels: Seq<Seq<char>>, values: Seq<Seq<char>>) -> Seq<char>
    decreases labels.len(),
{
    if labels.len() == 0 || values.len() == 0 {
        Seq::empty()
    } else {
        signature_part(labels[0], values[0]) + labelled_values(
            labels.drop_first(),
            values.drop_first(),
        )
    }
}

/// The cache signature of the parameters: `fmt=webp`, then every parameter
/// under its label in a fixed order, so that the key does not depend on query
/// order or aliases; for example `fmt=webp|w=500|h=-|crop=fill|...|dbg=0`.
pub open spec fn cache_signature_spec(p: &Params) -> Seq<char> {
    "fmt=webp"@ + labelled_values(signature_labels(), signature_values(p))
}

proof fn lemma_labelled_values_snoc(labels: Seq<Seq<char>>, values: Seq<Seq<char>>, k: int)
    requires
        0 <= k < labels.len(),
        k < values.len(),
    ensures
        labelled_values(labels.take(k + 1), values.take(k + 1)) == labelled_values(
            labels.take(k),
            values.take(k),
        ) + signature_part(labels[k], values[k]),
    decreases k,
{
    if k == 0 {
        assert(labels.take(1).drop_first() =~= Seq::<Seq<char>>::empty());
        assert(values.take(1).drop_first() =~= Seq::<Seq<char>>::empty());
        assert(labels.take(0) =~= Seq::<Seq<char>>::empty());
        assert(labelled_values(labels.take(1).drop_first(), values.take(1).drop_first())
            =~= Seq::<char>::empty());
        assert(labelled_values(labels.take(1), values.take(1)) =~= signature_part(
            labels[0],
            values[0],
        ));
    } else {
        lemma_labelled_values_snoc(labels.drop_first(), values.drop_first(), k - 1);
        assert(labels.take(k + 1).drop_first() =~= labels.drop_first().take(k));
        assert(values.take(k + 1).drop_first() =~= values.drop_first().take(k));
        assert(labels.take(k).drop_first() =~= labels.drop_first().take(k - 1));
        assert(values.take(k).drop_first() =~= values.drop_first().take(k - 1));
        assert(labels.drop_first()[k - 1] == labels[k]);
        assert(values.drop_first()[k - 1] == values[k]);
        assert(labelled_values(labels.take(k + 1), values.take(k + 1)) =~= labelled_values(
            labels.take(k),
            values.take(k),
        ) + signature_part(labels[k], values[k]));
    }
}

/// The views of some strings.
pub open spec fn str_views(s: Seq<&str>) -> Seq<Seq<char>> {
    s.map_values(|t: &str| t@)
}

/// The views of some strings.
pub open spec fn string_views(s: Seq<String>) -> Seq<Seq<char>> {
    s.map_values(|t: String| t@)
}

fn owned(s: &str) -> (o: String)
    ensures
        o@ == s@,
{
    let mut o = String::new();
    push_str(&mut o, s);
    assert(o@ =~= s@);
    o
}

fn opt_text_str(value: &Option<String>) -> (s: String)
    ensures
        s@ == opt_str_spec(opt_text(*value)),
{
    match value {
        Some(v) => opt_str(Some(v.as_str())),
        None => opt_str(None),
    }
}

// ---------------------------------------------------------------------------
// The signature tells parameters apart
// ---------------------------------------------------------------------------

/// No `|` in the text.
pub open spec fn no_bar(s: Seq<char>) -> bool {
    forall|i: int| 0 <= i < s.len() ==> s[i] != '|'
}

/// An optional text that the signature can tell apart from any other: not
/// `-`, which stands for absence, and without `|`, which separates values.
pub open spec fn signature_text_ok(t: Option<String>) -> bool {
    match t {
        Some(v) => v@ != "-"@ && no_bar(v@),
        None => true,
    }
}

/// The texts of the parameters can all be told apart in a signature. The
/// four-decimal renderings of numbers always can.
pub open spec fn signature_texts_ok(p: &Params) -> bool {
    &&& signature_text_ok(p.aspect)
    &&& signature_text_ok(p.blur)
    &&& signature_text_ok(p.contrast)
    &&& signature_text_ok(p.saturation)
    &&& signature_text_ok(p.vibrance)
    &&& signature_text_ok(p.grain)
    &&& signature_text_ok(p.grain_grayscale)
    &&& signature_text_ok(p.chromatic_aberration)
    &&& no_bar(p.grain_threshold@)
}

/// Two parameter sets ask for the same transform and encoding: every
/// parameter is equal, texts by their characters.
pub open spec fn same_parameters(p1: &Params, p2: &Params) -> bool {
    &&& p1.width == p2.width
    &&& p1.height == p2.height
    &&& p1.crop_mode == p2.crop_mode
    &&& p1.gravity == p2.gravity
    &&& opt_text(p1.aspect) == opt_text(p2.aspect)
    &&& p1.rotate == p2.rotate
    &&& p1.background == p2.background
    &&& opt_text(p1.blur) == opt_text(p2.blur)
    &&& p1.webp_quality == p2.webp_quality
    &&& p1.webp_lossless == p2.webp_lossless
    &&& p1.brightness == p2.brightness
    &&& opt_text(p1.contrast) == opt_text(p2.contrast)
    &&& p1.hue_rotate == p2.hue_rotate
    &&& p1.grayscale == p2.grayscale
    &&& p1.invert == p2.invert
    &&& opt_text(p1.saturation) == opt_text(p2.saturation)
    &&& opt_text(p1.vibrance) == opt_text(p2.vibrance)
    &&& opt_text(p1.grain) == opt_text(p2.grain)
    &&& opt_text(p1.grain_grayscale) == opt_text(p2.grain_grayscale)
    &&& p1.grain_threshold@ == p2.grain_threshold@
    &&& opt_text(p1.chromatic_aberration) == opt_text(p2.chromatic_aberration)
    &&& p1.debug == p2.debug
}

proof fn lemma_labelled_values_starts_with_bar(labels: Seq<Seq<char>>, values: Seq<Seq<char>>)
    ensures
        labelled_values(labels, values).len() > 0 ==> labelled_values(labels, values)[0] == '|',
{
}

proof fn lemma_split_at_bar(x1: Seq<char>, r1: Seq<char>, x2: Seq<char>, r2: Seq<char>)
    requires
        x1 + r1 == x2 + r2,
        no_bar(x1),
        no_bar(x2),
        r1.len() > 0 ==> r1[0] == '|',
        r2.len() > 0 ==> r2[0] == '|',
    ensures
        x1 == x2,
        r1 == r2,
{
    let t = x1 + r1;
    if x1.len() < x2.len() {
        assert(t[x1.len() as int] == x2[x1.len() as int]);
        assert(r1.len() > 0);
        assert(t[x1.len() as int] == r1[0]);
    } else if x2.len() < x1.len() {
        assert(t[x2.len() as int] == x1[x2.len() as int]);
        assert(r2.len() > 0);
        assert((x2 + r2)[x2.len() as int] == r2[0]);
    }
    assert(x1 =~= t.take(x1.len() as int));
    assert(x2 =~= (x2 + r2).take(x2.len() as int));
    assert(r1 =~= t.skip(x1.len() as int));
    assert(r2 =~= (x2 + r2).skip(x2.len() as int));
}

proof fn lemma_labelled_values_injective(
    labels: Seq<Seq<char>>,
    v1: Seq<Seq<char>>,
    v2: Seq<Seq<char>>,
)
    requires
        v1.len() == labels.len(),
        v2.len() == labels.len(),
        forall|i: int| 0 <= i < v1.len() ==> no_bar(#[trigger] v1[i]),
        forall|i: int| 0 <= i < v2.len() ==> no_bar(#[trigger] v2[i]),
        labelled_values(labels, v1) == labelled_values(labels, v2),
    ensures
        v1 == v2,
    decreases labels.len(),
{
    if labels.len() == 0 {
        assert(v1 =~= v2);
    } else {
        let w = seq!['|'] + labels[0] + seq!['='];
        let rest1 = labelled_values(labels.drop_first(), v1.drop_first());
        let rest2 = labelled_values(labels.drop_first(), v2.drop_first());
        let a = labelled_values(labels, v1);
        assert(a =~= w + (v1[0] + rest1));
        assert(a =~= w + (v2[0] + rest2));
        assert(v1[0] + rest1 =~= a.skip(w.len() as int));
        assert(v2[0] + rest2 =~= a.skip(w.len() as int));
        lemma_labelled_values_starts_with_bar(labels.drop_first(), v1.drop_first());
        lemma_labelled_values_starts_with_bar(labels.drop_first(), v2.drop_first());
        assert(no_bar(v1[0]));
        assert(no_bar(v2[0]));
        lemma_split_at_bar(v1[0], rest1, v2[0], rest2);
        assert forall|i: int| 0 <= i < v1.drop_first().len() implies no_bar(
            #[trigger] v1.drop_first()[i],
        ) by {
            assert(v1.drop_first()[i] == v1[i + 1]);
        }
        assert forall|i: int| 0 <= i < v2.drop_first().len() implies no_bar(
            #[trigger] v2.drop_first()[i],
        ) by {
            assert(v2.drop_first()[i] == v2[i + 1]);
        }
        lemma_labelled_values_injective(labels.drop_first(), v1.drop_first(), v2.drop_first());
        assert(v1 =~= seq![v1[0]] + v1.drop_first());
        assert(v2 =~= seq![v2[0]] + v2.drop_first());
    }
}

proof fn lemma_digits_no_bar(s: Seq<char>)
    requires
        all_digits(s),
    ensures
        no_bar(s),
{
    assert forall|i: int| 0 <= i < s.len() implies s[i] != '|' by {
        assert(crate::text::is_digit(s[i]));
    }
}

proof fn lemma_opt_u32_signature(a: Option<u32>, b: Option<u32>)
    ensures
        no_bar(opt_u32_spec(a)),
        opt_u32_spec(a) == opt_u32_spec(b) ==> a == b,
{
    reveal_strlit("-");
    match a {
        Some(x) => {
            lemma_decimal_value(x as nat);
            lemma_digits_no_bar(decimal(x as nat));
            assert(crate::text::is_digit(decimal(x as nat)[0]));
        },
        None => {},
    }
    match b {
        Some(y) => {
            lemma_decimal_value(y as nat);
            assert(crate::text::is_digit(decimal(y as nat)[0]));
        },
        None => {},
    }
    if opt_u32_spec(a) == opt_u32_spec(b) {
        if a is Some && b is Some {
            lemma_decimal_injective(a.unwrap() as nat, b.unwrap() as nat);
        } else if a is Some {
            assert(opt_u32_spec(a)[0] != '-');
        } else if b is Some {
            assert(opt_u32_spec(b)[0] != '-');
        }
    }
}

proof fn lemma_signed_decimal_shape(v: int)
    ensures
        signed_decimal(v).len() >= 1,
        v < 0 ==> signed_decimal(v).len() >= 2 && signed_decimal(v)[0] == '-',
        v >= 0 ==> crate::text::is_digit(signed_decimal(v)[0]),
        no_bar(signed_decimal(v)),
{
    if v < 0 {
        lemma_decimal_value((-v) as nat);
        let d = decimal((-v) as nat);
        let s = signed_decimal(v);
        assert forall|i: int| 0 <= i < s.len() implies s[i] != '|' by {
            if i > 0 {
                assert(s[i] == d[i - 1]);
                assert(crate::text::is_digit(d[i - 1]));
            }
        }
    } else {
        lemma_decimal_value(v as nat);
        lemma_digits_no_bar(decimal(v as nat));
    }
}

proof fn lemma_opt_i32_signature(a: Option<i32>, b: Option<i32>)
    ensures
        no_bar(opt_i32_spec(a)),
        opt_i32_spec(a) == opt_i32_spec(b) ==> a == b,
{
    reveal_strlit("-");
    if let Some(x) = a {
        lemma_signed_decimal_shape(x as int);
    }
    if let Some(y) = b {
        lemma_signed_decimal_shape(y as int);
    }
    if opt_i32_spec(a) == opt_i32_spec(b) {
        if a is Some && b is Some {
            let x = a.unwrap() as int;
            let y = b.unwrap() as int;
            if x < 0 && y < 0 {
                assert(decimal((-x) as nat) =~= signed_decimal(x).drop_first());
                assert(decimal((-y) as nat) =~= signed_decimal(y).drop_first());
                lemma_decimal_injective((-x) as nat, (-y) as nat);
            } else if x >= 0 && y >= 0 {
                lemma_decimal_injective(x as nat, y as nat);
            }
        }
    }
}

proof fn lemma_crop_mode_signature(a: CropMode, b: CropMode)
    ensures
        no_bar(crop_mode_code_spec(a)),
        crop_mode_code_spec(a) == crop_mode_code_spec(b) ==> a == b,
{
    reveal_strlit("fill");
    reveal_strlit("fit");
    reveal_strlit("scale");
    reveal_strlit("crop");
    reveal_strlit("pad");
    if crop_mode_code_spec(a) == crop_mode_code_spec(b) {
        assert(crop_mode_code_spec(a)[1] == crop_mode_code_spec(b)[1]);
        assert(crop_mode_code_spec(a).len() == crop_mode_code_spec(b).len());
    }
}

proof fn lemma_gravity_signature(a: Gravity, b: Gravity)
    ensures
        no_bar(gravity_code_spec(a)),
        gravity_code_spec(a) == gravity_code_spec(b) ==> a == b,
{
    reveal_strlit("c");
    reveal_strlit("n");
    reveal_strlit("s");
    reveal_strlit("e");
    reveal_strlit("w");
    if gravity_code_spec(a) == gravity_code_spec(b) {
        assert(gravity_code_spec(a)[0] == gravity_code_spec(b)[0]);
    }
}

proof fn lemma_bool_signature(a: bool, b: bool)
    ensures
        no_bar(bool_code_spec(a)),
        bool_code_spec(a) == bool_code_spec(b) ==> a == b,
{
    reveal_strlit("1");
    reveal_strlit("0");
    if bool_code_spec(a) == bool_code_spec(b) {
        assert(bool_code_spec(a)[0] == bool_code_spec(b)[0]);
    }
}

proof fn lemma_hex_char_not_bar(d: int)
    requires
        0 <= d < 16,
    ensures
        hex_char_lower(d) != '|',
{
    assert(hex_char_lower(d) as int == (if d < 10 {
        d + 48
    } else {
        d + 87
    }));
}

proof fn lemma_color_signature(a: Option<[u8; 4]>, b: Option<[u8; 4]>)
    ensures
        no_bar(opt_color_spec(a)),
        opt_color_spec(a) == opt_color_spec(b) ==> a == b,
{
    reveal_strlit("-");
    if let Some(c) = a {
        let s = opt_color_spec(a);
        assert(s.len() == 8);
        assert forall|i: int| 0 <= i < s.len() implies s[i] != '|' by {
            let byte = c[i / 2];
            assert(s[i] == hex2_lower(byte)[i % 2]);
            lemma_hex_char_not_bar((byte / 16) as int);
            lemma_hex_char_not_bar((byte % 16) as int);
        }
    }
    if opt_color_spec(a) == opt_color_spec(b) {
        if a is Some && b is Some {
            let c1 = a.unwrap();
            let c2 = b.unwrap();
            let s = opt_color_spec(a);
            assert forall|k: int| 0 <= k < 4 implies c1[k] == c2[k] by {
                assert(hex2_lower(c1[k]) =~= s.subrange(2 * k, 2 * k + 2));
                assert(hex2_lower(c2[k]) =~= s.subrange(2 * k, 2 * k + 2));
                lemma_hex2_lower_injective(c1[k], c2[k]);
            }
            assert(c1 =~= c2);
        } else if a is Some {
            assert(opt_color_spec(a).len() == 8);
        } else if b is Some {
            assert(opt_color_spec(b).len() == 8);
        }
    }
}

proof fn lemma_text_signature(a: Option<String>, b: Option<String>)
    requires
        signature_text_ok(a),
        signature_text_ok(b),
    ensures
        no_bar(opt_str_spec(opt_text(a))),
        opt_str_spec(opt_text(a)) == opt_str_spec(opt_text(b)) ==> opt_text(a) == opt_text(b),
{
    reveal_strlit("-");
}

/// The cache signatures of two parameter sets are equal exactly when the
/// parameters are: equal parameters give one signature, and, when every text
/// parameter can be told apart (none is `-` or holds `|`), different
/// parameters give different signatures.
pub proof fn lemma_cache_signature_identifies_parameters(p1: &Params, p2: &Params)
    requires
        signature_texts_ok(p1),
        signature_texts_ok(p2),
    ensures
        cache_signature_spec(p1) == cache_signature_spec(p2) <==> same_parameters(p1, p2),
{
    let v1 = signature_values(p1);
    let v2 = signature_values(p2);
    lemma_opt_u32_signature(p1.width, p2.width);
    lemma_opt_u32_signature(p2.width, p1.width);
    lemma_opt_u32_signature(p1.height, p2.height);
    lemma_opt_u32_signature(p2.height, p1.height);
    lemma_crop_mode_signature(p1.crop_mode, p2.crop_mode);
    lemma_crop_mode_signature(p2.crop_mode, p1.crop_mode);
    lemma_gravity_signature(p1.gravity, p2.gravity);
    lemma_gravity_signature(p2.gravity, p1.gravity);
    lemma_text_signature(p1.aspect, p2.aspect);
    lemma_text_signature(p2.aspect, p1.aspect);
    lemma_opt_i32_signature(p1.rotate, p2.rotate);
    lemma_opt_i32_signature(p2.rotate, p1.rotate);
    lemma_color_signature(p1.background, p2.background);
    lemma_color_signature(p2.background, p1.background);
    lemma_text_signature(p1.blur, p2.blur);
    lemma_text_signature(p2.blur, p1.blur);
    lemma_opt_u32_signature(p1.webp_quality, p2.webp_quality);
    lemma_opt_u32_signature(p2.webp_quality, p1.webp_quality);
    lemma_bool_signature(p1.webp_lossless, p2.webp_lossless);
    lemma_bool_signature(p2.webp_lossless, p1.webp_lossless);
    lemma_opt_i32_signature(p1.brightness, p2.brightness);
    lemma_opt_i32_signature(p2.brightness, p1.brightness);
    lemma_text_signature(p1.contrast, p2.contrast);
    lemma_text_signature(p2.contrast, p1.contrast);
    lemma_opt_i32_signature(p1.hue_rotate, p2.hue_rotate);
    lemma_opt_i32_signature(p2.hue_rotate, p1.hue_rotate);
    lemma_bool_signature(p1.grayscale, p2.grayscale);
    lemma_bool_signature(p2.grayscale, p1.grayscale);
    lemma_bool_signature(p1.invert, p2.invert);
    lemma_bool_signature(p2.invert, p1.invert);
    lemma_text_signature(p1.saturation, p2.saturation);
    lemma_text_signature(p2.saturation, p1.saturation);
    lemma_text_signature(p1.vibrance, p2.vibrance);
    lemma_text_signature(p2.vibrance, p1.vibrance);
    lemma_text_signature(p1.grain, p2.grain);
    lemma_text_signature(p2.grain, p1.grain);
    lemma_text_signature(p1.grain_grayscale, p2.grain_grayscale);
    lemma_text_signature(p2.grain_grayscale, p1.grain_grayscale);
    lemma_text_signature(p1.chromatic_aberration, p2.chromatic_aberration);
    lemma_text_signature(p2.chromatic_aberration, p1.chromatic_aberration);
    lemma_bool_signature(p1.debug, p2.debug);
    lemma_bool_signature(p2.debug, p1.debug);
    if same_parameters(p1, p2) {
        assert(v1 =~= v2);
    }
    if cache_signature_spec(p1) == cache_signature_spec(p2) {
        let prefix = "fmt=webp"@;
        let l1 = labelled_values(signature_labels(), v1);
        let l2 = labelled_values(signature_labels(), v2);
        assert(l1 =~= cache_signature_spec(p1).skip(prefix.len() as int));
        assert(l2 =~= cache_signature_spec(p2).skip(prefix.len() as int));
        assert forall|i: int| 0 <= i < v1.len() implies no_bar(#[trigger] v1[i]) by {}
        assert forall|i: int| 0 <= i < v2.len() implies no_bar(#[trigger] v2[i]) by {}
        lemma_labelled_values_injective(signature_labels(), v1, v2);
        assert(v1[0] == v2[0]);
        assert(v1[1] == v2[1]);
        assert(v1[2] == v2[2]);
        assert(v1[3] == v2[3]);
        assert(v1[4] == v2[4]);
        assert(v1[5] == v2[5]);
        assert(v1[6] == v2[6]);
        assert(v1[7] == v2[7]);
        assert(v1[8] == v2[8]);
        assert(v1[9] == v2[9]);
        assert(v1[10] == v2[10]);
        assert(v1[11] == v2[11]);
        assert(v1[12] == v2[12]);
        assert(v1[13] == v2[13]);
        assert(v1[14] == v2[14]);
        assert(v1[15] == v2[15]);
        assert(v1[16] == v2[16]);
        assert(v1[17] == v2[17]);
        assert(v1[18] == v2[18]);
        assert(v1[19] == v2[19]);
        assert(v1[20] == v2[20]);
        assert(v1[21] == v2[21]);
    }
}

impl Params {
    /// Whether any transform is asked for; the encoding options alone are none.
    pub fn has_transforms(&self) -> (res: bool)
        ensures
            res == (self.width.is_some() || self.height.is_some() || self.aspect.is_some()
                || self.rotate.is_some() || self.blur.is_some() || self.brightness.is_some()
                || self.contrast.is_some() || self.hue_rotate.is_some() || self.grayscale
                || self.invert || self.saturation.is_some() || self.vibrance.is_some()
                || self.grain.is_some() || self.grain_grayscale.is_some()
                || self.chromatic_aberration.is_some() || self.debug),
    {
        self.width.is_some() || self.height.is_some() || self.aspect.is_some()
            || self.rotate.is_some() || self.blur.is_some() || self.brightness.is_some()
            || self.contrast.is_some() || self.hue_rotate.is_some() || self.grayscale
            || self.invert || self.saturation.is_some() || self.vibrance.is_some()
            || self.grain.is_some() || self.grain_grayscale.is_some()
            || self.chromatic_aberration.is_some() || self.debug
    }

    /// Whether an operation on pixels (blur, colour filters, effects) is asked for.
    pub fn has_pixel_ops(&self) -> (res: bool)
        ensures
            res == (self.blur.is_some() || self.brightness.is_some() || self.contrast.is_some()
                || self.hue_rotate.is_some() || self.saturation.is_some()
                || self.vibrance.is_some() || self.grayscale || self.invert
                || self.grain.is_some() || self.grain_grayscale.is_some()
                || self.chromatic_aberration.is_some()),
    {
        self.blur.is_some() || self.brightness.is_some() || self.contrast.is_some()
            || self.hue_rotate.is_some() || self.saturation.is_some() || self.vibrance.is_some()
            || self.grayscale || self.invert || self.grain.is_some()
            || self.grain_grayscale.is_some() || self.chromatic_aberration.is_some()
    }

    /// The stable cache signature of the parameters.
    pub fn cache_signature(&self) -> (sig: String)
        ensures
            sig@ == cache_signature_spec(self),
    {
        let labels: Vec<&str> = vec![
            "w",
            "h",
            "crop",
            "g",
            "ar",
            "rot",
            "bg",
            "blur",
            "wq",
            "wl",
            "bri",
            "con",
            "hue",
            "gs",
            "inv",
            "sat",
            "vib",
            "gr",
            "grg",
            "grth",
            "ca",
            "dbg",
        ];
        let values: Vec<String> = vec![
            opt_u32(self.width),
            opt_u32(self.height),
            owned(crop_mode_code(self.crop_mode)),
            owned(gravity_code(self.gravity)),
            opt_text_str(&self.aspect),
            opt_i32(self.rotate),
            opt_color(self.background),
            opt_text_str(&self.blur),
            opt_u32(self.webp_quality),
            owned(bool_code(self.webp_lossless)),
            opt_i32(self.brightness),
            opt_text_str(&self.contrast),
            opt_i32(self.hue_rotate),
            owned(bool_code(self.grayscale)),
            owned(bool_code(self.invert)),
            opt_text_str(&self.saturation),
            opt_text_str(&self.vibrance),
            opt_text_str(&self.grain),
            opt_text_str(&self.grain_grayscale),
            owned(self.grain_threshold.as_str()),
            opt_text_str(&self.chromatic_aberration),
            owned(bool_code(self.debug)),
        ];
        let ghost ls = signature_labels();
        let ghost vs = signature_values(self);
        assert(str_views(labels@) =~= ls);
        assert(string_views(values@) =~= vs);
        let mut sig = String::new();
        push_str(&mut sig, "fmt=webp");
        assert(ls.take(0) =~= Seq::<Seq<char>>::empty());
        let mut i: usize = 0;
        while i < labels.len()
            invariant
                labels@.len() == 22,
                values@.len() == 22,
                ls.len() == 22,
                vs.len() == 22,
                str_views(labels@) == ls,
                string_views(values@) == vs,
                0 <= i <= 22,
                sig@ == "fmt=webp"@ + labelled_values(ls.take(i as int), vs.take(i as int)),
            decreases 22 - i,
        {
            let ghost before = sig@;
            push_char(&mut sig, '|');
            push_str(&mut sig, labels[i]);
            push_char(&mut sig, '=');
            push_str(&mut sig, values[i].as_str());
            proof {
                lemma_labelled_values_snoc(ls, vs, i as int);
                assert(labels@[i as int]@ == ls[i as int]);
                assert(values@[i as int]@ == vs[i as int]);
                assert(sig@ =~= before + signature_part(ls[i as int], vs[i as int]));
            }
            i = i + 1;
        }
        assert(ls.take(22) =~= ls);
        assert(vs.take(22) =~= vs);
        sig
    }
}

} // verus!
