use imagik::observability::metrics::system::record_blocking_thread_usage;
use imagik::observability::metrics::{set_external_cache_stats, set_runtime_limits};
use imagik::handlers::parser::{parse_hex_color, parse_params, parse_query_params};
use imagik::models::{CropMode, Gravity};
use imagik::observability::metrics::latency::{
    latency_bucket_index, percentile_from_hist, percentile_rank,
};
use imagik::observability::metrics::registry::Metrics;
use imagik::observability::metrics::request::record_request_finished;
use imagik::observability::metrics::export::render_prometheus;
use imagik::pipeline::keys::ParamKey;

#[test]
fn rendering_shows_recorded_requests() {
    let mut m = Metrics::new();
    record_request_finished(&mut m, 42, true);
    record_request_finished(&mut m, 42, false);
    let out = render_prometheus(&m);
    assert!(out.contains("imagik_requests_total 2\n"));
    assert!(out.contains("imagik_requests_errors_total 1\n"));
    assert!(out.contains("imagik_latency_ms{kind=\"request\",quantile=\"0.50\"} 64\n"));
    assert!(out.contains("imagik_latency_ms{kind=\"request\",quantile=\"0.99\"} 64\n"));
}

#[test]
fn percentiles_of_a_single_sample_are_its_bucket_bound() {
    let mut hist = vec![0u64; 19];
    hist[latency_bucket_index(300)] = 1;
    assert_eq!(percentile_from_hist(&hist, 50, 100), 512);
    assert_eq!(percentile_from_hist(&hist, 99, 100), 512);
    assert_eq!(percentile_rank(1, 50, 100), 1);
    assert_eq!(percentile_rank(200, 95, 100), 190);
}

#[test]
fn path_parameters_parse() {
    let p = parse_params("w_500, h_300,c_fit,g_left,unknown_1,nounderscore,bg_#f0a").expect("params");
    assert_eq!(p.width, Some(500));
    assert_eq!(p.height, Some(300));
    assert!(p.crop_mode == CropMode::Fit);
    assert!(p.gravity == Gravity::West);
    assert_eq!(p.background, Some([255, 0, 170, 255]));
    assert_eq!(parse_params("w_0").unwrap_err(), "width must be between 1 and 8192");
    assert_eq!(parse_params("h_x").unwrap_err(), "invalid height value: x");
    assert_eq!(parse_params("r_45").unwrap_err(), "rotation must be 0, 90, 180, or 270");
    assert_eq!(parse_hex_color("+f00ff").unwrap_err(), "invalid hex color: +f00ff");
    assert_eq!(
        parse_hex_color("12345").unwrap_err(),
        "hex color must be 3, 6, or 8 chars: 12345"
    );
    assert!(ParamKey::from_alias("webp_q") == Some(ParamKey::WebpQuality));
    assert!(ParamKey::from_alias("W").is_none());
}

#[test]
fn unknown_segments_change_nothing() {
    let plain = parse_params("w_500,h_300,blur_2.5").expect("params");
    let noisy = parse_params("zz_9,w_500,,nounderscore,h_300,W_7,blur_2.5,bogus_x").expect("params");
    assert_eq!(format!("{plain:?}"), format!("{noisy:?}"));
}

#[test]
fn aliases_give_the_same_parameters() {
    let short = parse_params("w_640,h_480,c_pad,g_n,bg_ffffff,wq_80,r_90").expect("params");
    let long = parse_params("width_640,height_480,crop_pad,gravity_n,background_ffffff,quality_80,rotate_90")
        .expect("params");
    assert_eq!(format!("{short:?}"), format!("{long:?}"));
}

#[test]
fn segment_order_does_not_matter() {
    let a = parse_params("w_500,h_300,c_fit,g_s,blur_2,bri_10").expect("params");
    let b = parse_params("bri_10,c_fit,blur_2,h_300,g_s,w_500").expect("params");
    assert_eq!(format!("{a:?}"), format!("{b:?}"));
    // With one refusal the same error comes either way; with two, the first.
    assert_eq!(parse_params("w_0,h_300").unwrap_err(), parse_params("h_300,w_0").unwrap_err());
    assert_eq!(parse_params("w_0,h_x").unwrap_err(), "width must be between 1 and 8192");
    assert_eq!(parse_params("h_x,w_0").unwrap_err(), "invalid height value: x");
}

#[test]
fn hex_colours_take_ascii_hex_digits_only() {
    assert_eq!(parse_hex_color("#f0a"), Ok([255, 0, 170, 255]));
    assert_eq!(parse_hex_color("##ff00aa80"), Ok([255, 0, 170, 128]));
    assert_eq!(parse_hex_color("+f+f+f").unwrap_err(), "invalid hex color: +f+f+f");
    assert_eq!(parse_hex_color("a\u{e9}\u{e9}b").unwrap_err(), "invalid hex color: a\u{e9}\u{e9}b");
    assert_eq!(parse_hex_color("\u{e9}\u{e9}\u{e9}\u{e9}").unwrap_err(), "invalid hex color: \u{e9}\u{e9}\u{e9}\u{e9}");
    assert!(parse_params("bg_a\u{e9}\u{e9}b").is_err());
}

#[test]
fn export_shows_limits_stats_and_request_count() {
    let mut m = Metrics::new();
    set_runtime_limits(&mut m, 64, 8, 10_000, 500);
    set_external_cache_stats(&mut m, 4096, 7);
    for i in 0..5u64 {
        record_request_finished(&mut m, i, i != 2);
    }
    let out = render_prometheus(&m);
    assert!(out.starts_with(
        "imagik_config_max_blocking_threads 64\nimagik_config_transform_concurrency 8\nimagik_config_blocking_keep_alive_ms 10000\nimagik_config_rss_sample_interval_ms 500\nimagik_requests_total 5\n"
    ));
    assert!(out.contains("imagik_requests_errors_total 1\n"));
    assert!(out.contains(
        "imagik_external_cache_enabled 0\nimagik_external_cache_memory_bytes 4096\nimagik_external_cache_evicted_keys_total 7\n"
    ));
    assert_eq!(render_prometheus(&m), out);
}

#[test]
fn query_pairs_parse_like_path_segments() {
    let pairs = vec![
        ("blur".to_string(), "2.5".to_string()),
        ("f".to_string(), "png".to_string()),
        ("g".to_string(), "east".to_string()),
        ("w".to_string(), "640".to_string()),
        ("zz".to_string(), "1".to_string()),
    ];
    let q = parse_query_params(&pairs).expect("params");
    let p = parse_params("blur_2.5,g_east,w_640").expect("params");
    assert_eq!(format!("{q:?}"), format!("{p:?}"));
    let bad = vec![("bg".to_string(), "+f+f+f".to_string())];
    assert_eq!(parse_query_params(&bad).unwrap_err(), "invalid hex color: +f+f+f");
    let later = vec![("w".to_string(), "10".to_string()), ("width".to_string(), "20".to_string())];
    assert_eq!(parse_query_params(&later).unwrap().width, Some(20));
}

#[test]
fn a_thread_is_counted_once() {
    let mut m = Metrics::new();
    let mut seen = false;
    for _ in 0..3 {
        seen = record_blocking_thread_usage(&mut m, seen);
    }
    assert!(seen);
    assert!(render_prometheus(&m).contains("imagik_blocking_threads_unique 1\n"));
}
