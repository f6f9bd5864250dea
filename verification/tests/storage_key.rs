use imagik::storage::object::client::cache_namespace;
use imagik::storage::object::config::{ModeSettings, StaticCredentials, StorageSettings};
use imagik::storage::object::disk_cache::{cache_file_name, eviction_order, total_bytes, within_capacity, DiskCache};
use imagik::storage::object::fetch::{GetAction, HeadAction, HeadObjectStep, ObjectStorageSource};
use imagik::storage::object::key::{
    build_signed_url, encode_key_for_url_path, extract_version_headers, normalize_key_prefix,
    normalize_version_value, storage_key, version_from_parts,
};
use imagik::storage::object::retry::{backoff_delay, is_retryable_status};
use imagik::config::env::EnvVars;

fn env(pairs: &[(&str, &str)]) -> EnvVars {
    EnvVars {
        vars: pairs.iter().map(|(k, v)| (k.to_string(), v.to_string())).collect(),
    }
}

#[test]
fn encodes_segments_but_keeps_path_separators() {
    let encoded = encode_key_for_url_path("photos/deer image.jpg");
    assert_eq!(encoded, "photos/deer%20image%2Ejpg");
}

#[test]
fn signed_url_uses_placeholder_when_present() {
    let url = build_signed_url(
        "https://cdn.example.com/source/{key}?token=abc",
        "photos/deer image.jpg",
    );
    assert_eq!(
        url,
        "https://cdn.example.com/source/photos/deer%20image%2Ejpg?token=abc"
    );
}

#[test]
fn signed_url_appends_key_before_query() {
    let url = build_signed_url(
        "https://cdn.example.com/source?token=abc",
        "photos/deer.jpg",
    );
    assert_eq!(
        url,
        "https://cdn.example.com/source/photos/deer%2Ejpg?token=abc"
    );
}

#[test]
fn version_prefers_version_id_then_etag() {
    assert_eq!(
        version_from_parts(Some("v1"), Some("\"etag\""), Some("lm".to_string())),
        Some("v1".to_string())
    );
    assert_eq!(
        version_from_parts(None, Some("\"etag\""), None),
        Some("etag".to_string())
    );
    assert_eq!(
        version_from_parts(None, None, Some("lm".to_string())),
        Some("lm".to_string())
    );
}

#[test]
fn normalizes_version_quotes() {
    assert_eq!(normalize_version_value("\"abc\""), "abc");
}

#[test]
fn normalizes_version_whitespace_then_quotes() {
    assert_eq!(normalize_version_value("  \"\"abc\"  "), "abc");
    assert_eq!(normalize_version_value("\" abc \""), " abc ");
}

#[test]
fn encodes_unicode_and_empty_segments() {
    assert_eq!(encode_key_for_url_path("a/é"), "a/%C3%A9");
    assert_eq!(encode_key_for_url_path("/x//y/"), "/x//y/");
    assert_eq!(encode_key_for_url_path(""), "");
    assert_eq!(encode_key_for_url_path("AZaz09-_~"), "AZaz09%2D%5F%7E");
}

#[test]
fn signed_url_replaces_every_placeholder() {
    assert_eq!(build_signed_url("https://h/{key}/{key}", "a b"), "https://h/a%20b/a%20b");
}

#[test]
fn signed_url_without_query_adds_separator_once() {
    assert_eq!(build_signed_url("https://h/base", "k"), "https://h/base/k");
    assert_eq!(build_signed_url("https://h/base/", "k"), "https://h/base/k");
    assert_eq!(build_signed_url("https://h/base/?t=1", "k"), "https://h/base/k?t=1");
    assert_eq!(build_signed_url("https://h/b?t=1?u=2", "k"), "https://h/b/k?t=1?u=2");
}

#[test]
fn version_headers_prefer_version_id_then_etag_then_last_modified() {
    let (token, etag) = extract_version_headers(Some(" \"e1\" "), Some("v9"), Some("lm"));
    assert_eq!(token, Some("v9".to_string()));
    assert_eq!(etag, Some("e1".to_string()));
    let (token, etag) = extract_version_headers(Some("\"e1\""), None, Some("lm"));
    assert_eq!(token, Some("e1".to_string()));
    assert_eq!(etag, Some("e1".to_string()));
    let (token, etag) = extract_version_headers(None, None, Some(" \"lm\" "));
    assert_eq!(token, Some("lm".to_string()));
    assert_eq!(etag, None);
    assert_eq!(extract_version_headers(None, None, None), (None, None));
}

#[test]
fn key_prefix_is_trimmed_of_whitespace_and_slashes() {
    assert_eq!(normalize_key_prefix("  /images/2024/ "), Some("images/2024".to_string()));
    assert_eq!(normalize_key_prefix(" // "), None);
    assert_eq!(normalize_key_prefix(""), None);
}

#[test]
fn storage_key_applies_prefix() {
    assert_eq!(storage_key(&Some("p".to_string()), "a/b.jpg"), "p/a/b.jpg");
    assert_eq!(storage_key(&None, "a/b.jpg"), "a/b.jpg");
}

#[test]
fn retryable_statuses_are_429_and_server_errors() {
    assert!(is_retryable_status(429));
    assert!(is_retryable_status(500));
    assert!(is_retryable_status(599));
    assert!(!is_retryable_status(404));
    assert!(!is_retryable_status(600));
    assert!(!is_retryable_status(200));
}

#[test]
fn backoff_doubles_up_to_thirty_two_times() {
    assert_eq!(backoff_delay(150, 0), 150);
    assert_eq!(backoff_delay(150, 1), 300);
    assert_eq!(backoff_delay(150, 5), 4800);
    assert_eq!(backoff_delay(150, 40), 4800);
    assert_eq!(backoff_delay(u64::MAX, 3), (u64::MAX as u128) * 8);
}

#[test]
fn signed_url_mode_is_detected_from_template() {
    let e = env(&[("IMAGIK_STORAGE_SIGNED_URL_TEMPLATE", " https://h/{key} ")]);
    let settings = StorageSettings::from_env(&e).expect("signed mode");
    match &settings.mode {
        ModeSettings::SignedUrl { template, timeout_ms, connect_timeout_ms } => {
            assert_eq!(template, "https://h/{key}");
            assert_eq!(*timeout_ms, 5000);
            assert_eq!(*connect_timeout_ms, 1500);
        }
        _ => panic!("expected signed url mode"),
    }
    assert_eq!(cache_namespace(&settings.mode), "signed:https://h/{key}");
    assert_eq!(settings.retry_attempts, 3);
    assert_eq!(settings.retry_backoff_ms, 150);
    assert_eq!(settings.max_object_bytes, 64 * 1024 * 1024);
    assert!(settings.cache.is_none());
    assert!(settings.key_prefix.is_none());
}

#[test]
fn s3_mode_reads_legacy_names_and_credentials() {
    let e = env(&[
        ("IMAGIK_STORAGE_MODE", "S3"),
        ("IMAGIK_OBJECT_BUCKET", "photos"),
        ("IMAGIK_STORAGE_ENDPOINT", "http://minio:9000"),
        ("IMAGIK_OBJECT_FORCE_PATH_STYLE", "no"),
        ("IMAGIK_STORAGE_ACCESS_KEY_ID", "ak"),
        ("IMAGIK_OBJECT_SECRET_ACCESS_KEY", "sk"),
        ("IMAGIK_STORAGE_MAX_RETRIES", "0"),
        ("IMAGIK_OBJECT_MAX_BYTES", "10"),
        ("IMAGIK_STORAGE_CACHE_DIR", " /tmp/c "),
        ("IMAGIK_STORAGE_KEY_PREFIX", "/pre/"),
    ]);
    let settings = StorageSettings::from_env(&e).expect("s3 mode");
    assert_eq!(settings.retry_attempts, 1);
    assert_eq!(settings.max_object_bytes, 1024);
    assert_eq!(settings.key_prefix, Some("pre".to_string()));
    let cache = settings.cache.as_ref().expect("cache");
    assert_eq!(cache.dir, "/tmp/c");
    assert_eq!(cache.ttl_secs, 600);
    assert_eq!(cache.max_bytes, 512 * 1024 * 1024);
    match &settings.mode {
        ModeSettings::S3 { bucket, region, endpoint, force_path_style, credentials, .. } => {
            assert_eq!(bucket, "photos");
            assert_eq!(region, "auto");
            assert_eq!(endpoint.as_deref(), Some("http://minio:9000"));
            assert!(!force_path_style);
            let StaticCredentials { access_key, secret_key, session_token } =
                credentials.as_ref().expect("credentials");
            assert_eq!(access_key, "ak");
            assert_eq!(secret_key, "sk");
            assert!(session_token.is_none());
        }
        _ => panic!("expected s3 mode"),
    }
    assert_eq!(cache_namespace(&settings.mode), "s3:http://minio:9000:photos");
}

#[test]
fn storage_mode_errors() {
    let invalid = StorageSettings::from_env(&env(&[("IMAGIK_STORAGE_MODE", "ftp")]));
    assert_eq!(
        invalid.err(),
        Some("invalid IMAGIK_STORAGE_MODE (expected auto, s3, or signed_url)".to_string())
    );
    let no_template = StorageSettings::from_env(&env(&[("IMAGIK_STORAGE_MODE", "signed-url")]));
    assert_eq!(
        no_template.err(),
        Some("missing signed-url config: set IMAGIK_STORAGE_SIGNED_URL_TEMPLATE".to_string())
    );
    let no_bucket = StorageSettings::from_env(&env(&[]));
    assert_eq!(
        no_bucket.err(),
        Some(
            "missing object storage config: set IMAGIK_STORAGE_BUCKET (or IMAGIK_OBJECT_BUCKET)"
                .to_string()
        )
    );
    let half_credentials = StorageSettings::from_env(&env(&[
        ("IMAGIK_STORAGE_BUCKET", "b"),
        ("IMAGIK_STORAGE_ACCESS_KEY_ID", "ak"),
    ]));
    assert_eq!(
        half_credentials.err(),
        Some("invalid object storage credentials: both access key and secret are required".to_string())
    );
}

#[test]
fn source_settings_split_and_decide() {
    let e = env(&[("IMAGIK_STORAGE_BUCKET", "b"), ("IMAGIK_STORAGE_KEY_PREFIX", "k")]);
    let settings = StorageSettings::from_env(&e).expect("settings");
    let (source, mode) = ObjectStorageSource::from_settings(settings);
    assert!(matches!(mode, ModeSettings::S3 { .. }));
    assert_eq!(source.cache_namespace, "s3::b");
    let key = source.storage_key("x.jpg");
    assert_eq!(key, "k/x.jpg");
    assert_eq!(source.source_cache_key(&key, Some("v1")), "s3::b:k/x.jpg:v1");
    assert_eq!(source.source_cache_key(&key, None), "s3::b:k/x.jpg");
    assert!(source.has_attempts_left(2));
    assert!(!source.has_attempts_left(3));
    assert!(source.classify_head_status(204, 0) == HeadAction::UseHeaders);
    assert!(source.classify_head_status(405, 0) == HeadAction::NoHeaders);
    assert!(source.classify_head_status(503, 0) == HeadAction::RetryAfterBackoff);
    assert!(source.classify_head_status(503, 3) == HeadAction::TryAgainNow);
    assert!(source.classify_head_status(404, 0) == HeadAction::TryAgainNow);
    assert!(source.classify_get_status(200, 0) == GetAction::ReadBody);
    assert!(source.classify_get_status(429, 1) == GetAction::RetryAfterBackoff);
    assert!(source.classify_get_status(403, 1) == GetAction::Fail);
    assert!(source.content_length_exceeds(64 * 1024 * 1024 + 1));
    assert!(!source.content_length_exceeds(64 * 1024 * 1024));
    assert!(source.body_exceeds(64 * 1024 * 1024 + 1));
    assert_eq!(
        source.too_large_message(),
        "object exceeded max configured size (67108864 bytes)"
    );
}

#[test]
fn disk_cache_policy() {
    assert_eq!(cache_file_name(0xab), "00000000000000ab.bin");
    assert_eq!(cache_file_name(u64::MAX), "ffffffffffffffff.bin");
    let mut cache = DiskCache {
        dir: "/tmp/c".to_string(),
        ttl_secs: 1,
        max_bytes: 100,
        next_eviction_scan_ms: 0,
    };
    assert!(cache.is_expired(1_000_000_001));
    assert!(!cache.is_expired(1_000_000_000));
    assert!(cache.should_scan_for_eviction(10));
    assert_eq!(cache.next_eviction_scan_ms, 5010);
    assert!(!cache.should_scan_for_eviction(5009));
    assert!(cache.should_evict_after_write(5010));
    assert!(cache.should_scan_for_eviction(u64::MAX));
    assert_eq!(cache.next_eviction_scan_ms, u64::MAX);
    let mut unlimited = DiskCache { dir: String::new(), ttl_secs: 1, max_bytes: 0, next_eviction_scan_ms: 0 };
    assert!(!unlimited.should_evict_after_write(10));
    assert_eq!(unlimited.next_eviction_scan_ms, 0);
}

#[test]
fn eviction_removes_oldest_first_stably() {
    let times = vec![Some(30), None, Some(10), Some(30), None, Some(-5)];
    assert_eq!(eviction_order(&times), vec![1, 4, 5, 2, 0, 3]);
    assert_eq!(eviction_order(&Vec::new()), Vec::<usize>::new());
    assert_eq!(total_bytes(&vec![1, 2, 3]), 6);
    assert_eq!(total_bytes(&vec![u64::MAX, 2]), u64::MAX);
    assert!(within_capacity(100, 100));
    assert!(!within_capacity(101, 100));
}

#[test]
fn head_object_attempts_retry_then_give_up() {
    let e = env(&[("IMAGIK_STORAGE_BUCKET", "b")]);
    let settings = StorageSettings::from_env(&e).expect("settings");
    let (source, _) = ObjectStorageSource::from_settings(settings);
    let attempts = source.retry_attempts;
    assert!(source.head_object_step(0, true) == HeadObjectStep::UseResult);
    let mut calls = 0u32;
    let mut attempt = 0u32;
    loop {
        calls += 1;
        match source.head_object_step(attempt, false) {
            HeadObjectStep::RetryAfter(ms) => {
                assert_eq!(ms, backoff_delay(source.retry_backoff_ms, attempt));
                attempt += 1;
            }
            HeadObjectStep::GiveUp => break,
            HeadObjectStep::UseResult => panic!("a failure is never used"),
        }
    }
    assert_eq!(calls, attempts + 1);
}
