use imagik::config::decode::{decode_limits, decode_limits_memo, validate_decode_bounds, DecodeLimits};
use imagik::config::env::{parse_u64, parse_usize, EnvVars};
use imagik::config::runtime::{configured_transform_concurrency, RuntimeConfig};

fn env(pairs: &[(&str, &str)]) -> EnvVars {
    EnvVars {
        vars: pairs.iter().map(|(k, v)| (k.to_string(), v.to_string())).collect(),
    }
}

#[test]
fn env_lookup_takes_the_first_entry() {
    let e = env(&[("A", "1"), ("A", "2"), ("B", "x")]);
    assert_eq!(e.get("A").map(String::as_str), Some("1"));
    assert_eq!(e.get("C"), None);
    assert_eq!(parse_usize(&e, "A", 7, 0), 1);
    assert_eq!(parse_usize(&e, "B", 7, 0), 7);
    assert_eq!(parse_usize(&e, "A", 7, 2), 7);
    assert_eq!(parse_u64(&env(&[("N", "+18446744073709551615")]), "N", 1, 0), u64::MAX);
    assert_eq!(parse_u64(&env(&[("N", "18446744073709551616")]), "N", 1, 0), 1);
    assert_eq!(parse_u64(&env(&[("N", " 5")]), "N", 1, 0), 1);
}

#[test]
fn decode_limits_defaults_and_overrides() {
    let d = decode_limits(&env(&[]));
    assert_eq!(d.pixels, 128_000_000);
    assert_eq!(d.dimension, 16_384);
    assert_eq!(d.alloc_bytes, 512 * 1024 * 1024);
    let d = decode_limits(&env(&[
        ("IMAGIK_MAX_DECODE_DIMENSION", "99999999999"),
        ("IMAGIK_MAX_DECODE_PIXELS", "0"),
        ("IMAGIK_MAX_DECODE_ALLOC_BYTES", "1023"),
    ]));
    assert_eq!(d.dimension, u32::MAX);
    assert_eq!(d.pixels, 128_000_000);
    assert_eq!(d.alloc_bytes, 512 * 1024 * 1024);
}

#[test]
fn decode_bounds_errors() {
    let limits = DecodeLimits { pixels: 100, dimension: 20, alloc_bytes: 300 };
    assert_eq!(
        validate_decode_bounds(0, 5, limits).unwrap_err(),
        "image has invalid dimensions"
    );
    assert_eq!(
        validate_decode_bounds(21, 1, limits).unwrap_err(),
        "image dimensions exceed configured limit (20x20)"
    );
    assert_eq!(
        validate_decode_bounds(20, 6, limits).unwrap_err(),
        "image pixel count exceeds configured limit (100)"
    );
    assert_eq!(
        validate_decode_bounds(10, 10, limits).unwrap_err(),
        "image decode allocation exceeds configured limit (300 bytes)"
    );
    assert!(validate_decode_bounds(15, 5, limits).is_ok());
    let huge = DecodeLimits { pixels: u64::MAX, dimension: u32::MAX, alloc_bytes: u64::MAX };
    // Four bytes per pixel of a u32::MAX by u32::MAX image are more than any u64 limit.
    assert_eq!(
        validate_decode_bounds(u32::MAX, u32::MAX, huge).unwrap_err(),
        "image decode allocation exceeds configured limit (18446744073709551615 bytes)"
    );
    assert!(validate_decode_bounds(u32::MAX, 1 << 30, huge).is_ok());
}

#[test]
fn runtime_settings() {
    let cfg = RuntimeConfig::from_env(&env(&[]), 4);
    assert_eq!(cfg.max_blocking_threads, 8);
    assert_eq!(cfg.blocking_keep_alive_ms, 3000);
    assert_eq!(cfg.rss_sample_interval_ms, 1000);
    let cfg = RuntimeConfig::from_env(
        &env(&[
            ("IMAGIK_MAX_BLOCKING_THREADS", "3"),
            ("IMAGIK_BLOCKING_KEEP_ALIVE_MS", "249"),
            ("IMAGIK_RSS_SAMPLE_INTERVAL_MS", "100"),
        ]),
        0,
    );
    assert_eq!(cfg.max_blocking_threads, 3);
    assert_eq!(cfg.blocking_keep_alive_ms, 3000);
    assert_eq!(cfg.rss_sample_interval_ms, 100);
    assert_eq!(configured_transform_concurrency(&env(&[]), 0), 1);
    assert_eq!(configured_transform_concurrency(&env(&[]), usize::MAX), usize::MAX);
    assert_eq!(
        configured_transform_concurrency(&env(&[("IMAGIK_TRANSFORM_CONCURRENCY", "0")]), 3),
        6
    );
    assert_eq!(
        configured_transform_concurrency(&env(&[("IMAGIK_TRANSFORM_CONCURRENCY", "5")]), 3),
        5
    );
}

#[test]
fn decode_limits_are_read_once() {
    let mut memo: Option<DecodeLimits> = None;
    let first = decode_limits_memo(&mut memo, &env(&[("IMAGIK_MAX_DECODE_PIXELS", "0")]));
    assert_eq!(first.pixels, 128_000_000);
    assert_eq!(first.dimension, 16_384);
    assert_eq!(first.alloc_bytes, 536_870_912);
    let later = decode_limits_memo(&mut memo, &env(&[("IMAGIK_MAX_DECODE_PIXELS", "7")]));
    assert_eq!(later.pixels, 128_000_000);
    assert_eq!(memo.map(|l| l.pixels), Some(128_000_000));
}
