use imagik::encoding::webp::calculate_webp_quality;
use imagik::models::{CropMode, Gravity};
use imagik::pipeline::params::Params;
use imagik::transforms::filter::{parse_brightness, parse_hue_rotate};
use imagik::transforms::debug::parse_debug;
use imagik::transforms::geometry::{
    calculate_gravity_offset, crop_rect, is_valid_size, rotation_of, CropRect, Rotation,
};
use imagik::transforms::pixels::{apply_simple_filters, crop_rgba, luminance, overlay_rgba};
use imagik::transforms::scratch::{ensure_len, should_decay, trim_plan, BufferMeta, TrimPlan};
use imagik::utils::parser::{normalize_hue, parse_flag, parse_i32_range};

#[test]
fn gravity_offsets() {
    assert_eq!(calculate_gravity_offset(100, 40, Gravity::Center, true), 30);
    assert_eq!(calculate_gravity_offset(101, 40, Gravity::Center, false), 30);
    assert_eq!(calculate_gravity_offset(100, 40, Gravity::West, true), 0);
    assert_eq!(calculate_gravity_offset(100, 40, Gravity::East, true), 60);
    assert_eq!(calculate_gravity_offset(100, 40, Gravity::North, false), 0);
    assert_eq!(calculate_gravity_offset(100, 40, Gravity::South, false), 60);
    assert_eq!(calculate_gravity_offset(100, 40, Gravity::North, true), 30);
    assert_eq!(calculate_gravity_offset(100, 100, Gravity::East, true), 0);
    assert_eq!(calculate_gravity_offset(10, 40, Gravity::East, true), 0);
}

#[test]
fn crop_rects_stay_inside() {
    assert!(is_valid_size(1, 1));
    assert!(!is_valid_size(0, 1));
    assert!(crop_rect(100, 50, 0, 10, Gravity::Center).is_none());
    assert!(crop_rect(100, 50, 100, 50, Gravity::Center).is_none());
    assert!(crop_rect(100, 50, 200, 60, Gravity::Center).is_none());
    assert!(
        crop_rect(100, 50, 40, 60, Gravity::East)
            == Some(CropRect { x: 60, y: 0, width: 40, height: 50 })
    );
    assert!(
        crop_rect(100, 50, 40, 20, Gravity::South)
            == Some(CropRect { x: 30, y: 30, width: 40, height: 20 })
    );
}

#[test]
fn rotations_are_taken_modulo_a_full_turn() {
    assert!(rotation_of(0) == Rotation::Upright);
    assert!(rotation_of(90) == Rotation::Quarter);
    assert!(rotation_of(-90) == Rotation::ThreeQuarters);
    assert!(rotation_of(540) == Rotation::Half);
    assert!(rotation_of(45) == Rotation::Upright);
    assert!(rotation_of(i32::MIN) == rotation_of(i32::MIN.rem_euclid(360)));
}

#[test]
fn scratch_buffers_grow_and_decay() {
    let mut buf = vec![7u8, 8];
    ensure_len(&mut buf, 5);
    assert_eq!(buf, vec![7, 8, 0, 0, 0]);
    assert!(!ensure_len(&mut buf, 3));
    assert_eq!(buf.len(), 5);
    let mut meta = BufferMeta::new();
    assert!(should_decay(meta, 128, 0));
    assert!(!should_decay(meta, 127, 0));
    meta.note_growth(100, 1_000);
    assert!(!should_decay(meta, 200, 20_000_000_999));
    assert!(should_decay(meta, 200, 20_000_001_000));
    assert!(should_decay(meta, 228, 0));
    assert!(!should_decay(meta, 5, 0));
}

#[test]
fn trim_plans() {
    let floor = 256 * 1024;
    assert!(trim_plan(10, 0, floor, 0, true, false) == TrimPlan::Release { retain: 0 });
    assert!(trim_plan(0, 0, floor, 0, true, false) == TrimPlan::Keep);
    assert!(trim_plan(10, 0, floor, 0, false, false) == TrimPlan::Keep);
    assert!(trim_plan(4 * 1_000_000, 1_000_000, floor, 0, false, false) == TrimPlan::Shrink { retain: 1_000_000 });
    assert!(trim_plan(3_999_999, 1_000_000, floor, 0, false, false) == TrimPlan::Keep);
    assert!(trim_plan(3_999_999, 1_000_000, floor, 0, false, true) == TrimPlan::Shrink { retain: 1_000_000 });
    assert!(trim_plan(40_000_000, 20_000_000, floor, 0, false, false) == TrimPlan::Shrink { retain: 20_000_000 });
    assert!(trim_plan(200_000, 10, floor, 0, false, true) == TrimPlan::Keep);
    assert!(trim_plan(usize::MAX, usize::MAX, floor, 0, false, true) == TrimPlan::Keep);
}

#[test]
fn filter_parsers() {
    assert_eq!(parse_brightness("50"), Some(50));
    assert_eq!(parse_hue_rotate("-90"), parse_hue_rotate("270"));
    assert!(parse_flag("true"));
    assert!(!parse_flag("nope"));
    assert_eq!(parse_i32_range("5", 0, 10), Some(5));
    assert_eq!(parse_i32_range("11", 0, 10), None);
    assert_eq!(normalize_hue(-30), 330);
    assert_eq!(normalize_hue(720), 0);
    let _ = parse_debug("1");
}

fn sample_params() -> Params {
    Params {
        width: Some(300),
        height: None,
        crop_mode: CropMode::Fit,
        gravity: Gravity::North,
        aspect: Some("16:9".to_string()),
        rotate: Some(-90),
        background: Some([255, 0, 16, 128]),
        blur: Some("2.5000".to_string()),
        webp_quality: None,
        webp_lossless: true,
        brightness: Some(-20),
        contrast: None,
        hue_rotate: None,
        grayscale: true,
        invert: false,
        saturation: None,
        vibrance: None,
        grain: None,
        grain_grayscale: None,
        grain_threshold: "0.0800".to_string(),
        chromatic_aberration: None,
        debug: false,
    }
}

#[test]
fn cache_signature_names_every_parameter() {
    let p = sample_params();
    assert_eq!(
        p.cache_signature(),
        "fmt=webp|w=300|h=-|crop=fit|g=n|ar=16:9|rot=-90|bg=ff001080|blur=2.5000|wq=-|wl=1|bri=-20|con=-|hue=-|gs=1|inv=0|sat=-|vib=-|gr=-|grg=-|grth=0.0800|ca=-|dbg=0"
    );
    assert!(p.has_transforms());
    assert!(p.has_pixel_ops());
}

#[test]
fn encoding_options_are_no_transforms() {
    let mut p = sample_params();
    p.width = None;
    p.aspect = None;
    p.rotate = None;
    p.blur = None;
    p.brightness = None;
    p.grayscale = false;
    assert!(!p.has_transforms());
    assert!(!p.has_pixel_ops());
    p.debug = true;
    assert!(p.has_transforms());
    assert!(!p.has_pixel_ops());
}

#[test]
fn luminance_weights_the_channels() {
    assert_eq!(luminance(0, 0, 0), 0);
    assert_eq!(luminance(255, 255, 255), 255);
    assert_eq!(luminance(255, 0, 0), 76);
    assert_eq!(luminance(0, 255, 0), 149);
    assert_eq!(luminance(0, 0, 255), 29);
    assert_eq!(luminance(10, 20, 30), 18);
}

#[test]
fn simple_filters_keep_alpha_and_partial_pixels() {
    let start = vec![255u8, 0, 0, 7, 10, 20, 30, 200, 1, 2];
    let mut gray = start.clone();
    apply_simple_filters(&mut gray, true, false);
    assert_eq!(gray, vec![76, 76, 76, 7, 18, 18, 18, 200, 1, 2]);
    let mut inverted = start.clone();
    apply_simple_filters(&mut inverted, false, true);
    assert_eq!(inverted, vec![0, 255, 255, 7, 245, 235, 225, 200, 1, 2]);
    let mut both = start.clone();
    apply_simple_filters(&mut both, true, true);
    assert_eq!(both, vec![179, 179, 179, 7, 237, 237, 237, 200, 1, 2]);
    let mut none = start.clone();
    apply_simple_filters(&mut none, false, false);
    assert_eq!(none, start);
}

fn numbered(pixels: usize) -> Vec<u8> {
    (0..pixels * 4).map(|i| i as u8).collect()
}

#[test]
fn crop_copies_rows_and_zeroes_rows_below_the_image() {
    // A 3 by 2 image; its pixel (px, py) holds bytes 4 * (3 * py + px) ..
    let src = numbered(6);
    let out = crop_rgba(&src, 3, 2, 1, 0, 2, 2);
    assert_eq!(out, vec![4, 5, 6, 7, 8, 9, 10, 11, 16, 17, 18, 19, 20, 21, 22, 23]);
    let below = crop_rgba(&src, 3, 2, 0, 1, 1, 2);
    assert_eq!(below, vec![12, 13, 14, 15, 0, 0, 0, 0]);
    assert!(crop_rgba(&src, 3, 2, 0, 0, 2, 0).is_empty());
}

#[test]
fn overlay_clips_to_the_destination() {
    let src = numbered(4);
    let mut dest = vec![0u8; 3 * 3 * 4];
    overlay_rgba(&mut dest, 3, 3, &src, 2, 2, 2, -1);
    let mut expected = vec![0u8; 3 * 3 * 4];
    expected[8..12].copy_from_slice(&[8, 9, 10, 11]);
    assert_eq!(dest, expected);

    let mut centred = vec![255u8; 4 * 4 * 4];
    overlay_rgba(&mut centred, 4, 4, &src, 2, 2, 1, 1);
    assert_eq!(&centred[20..28], &[0, 1, 2, 3, 4, 5, 6, 7]);
    assert_eq!(&centred[36..44], &[8, 9, 10, 11, 12, 13, 14, 15]);
    assert_eq!(&centred[0..20], &[255u8; 20][..]);
    assert_eq!(&centred[44..64], &[255u8; 20][..]);
}

#[test]
fn webp_quality_defaults_caps_and_lossless() {
    assert_eq!(calculate_webp_quality(None, false), 85);
    assert_eq!(calculate_webp_quality(Some(42), false), 42);
    assert_eq!(calculate_webp_quality(Some(100), false), 100);
    assert_eq!(calculate_webp_quality(Some(300), false), 100);
    assert_eq!(calculate_webp_quality(Some(4_000_000_000), false), 100);
    assert_eq!(calculate_webp_quality(Some(10), true), 100);
    assert_eq!(calculate_webp_quality(None, true), 100);
}

#[test]
fn signatures_differ_exactly_when_parameters_do() {
    let base = sample_params();
    assert_eq!(base.cache_signature(), sample_params().cache_signature());
    let mut changed: Vec<Params> = Vec::new();
    let mut p = sample_params();
    p.width = Some(30);
    changed.push(p);
    let mut p = sample_params();
    p.height = Some(300);
    changed.push(p);
    let mut p = sample_params();
    p.crop_mode = CropMode::Fill;
    changed.push(p);
    let mut p = sample_params();
    p.rotate = Some(90);
    changed.push(p);
    let mut p = sample_params();
    p.background = Some([255, 0, 16, 129]);
    changed.push(p);
    let mut p = sample_params();
    p.webp_quality = Some(0);
    changed.push(p);
    let mut p = sample_params();
    p.brightness = None;
    changed.push(p);
    let mut p = sample_params();
    p.debug = true;
    changed.push(p);
    let base_sig = base.cache_signature();
    for (i, q) in changed.iter().enumerate() {
        assert_ne!(q.cache_signature(), base_sig, "change {i}");
        for r in changed.iter().skip(i + 1) {
            assert_ne!(q.cache_signature(), r.cache_signature());
        }
    }
}

#[test]
fn a_dash_text_reads_as_absent() {
    let mut dashed = sample_params();
    dashed.contrast = Some("-".to_string());
    assert_eq!(dashed.cache_signature(), sample_params().cache_signature());
}
