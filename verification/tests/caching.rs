use imagik::caching::external::config::CacheConfig;
use imagik::caching::external::hot_cache::{HotInsertResult, InProcessHotCache};
use imagik::caching::external::info_sampler::{apply_info_sample, parse_info_u64};
use imagik::caching::external::keys::colon_key;
use imagik::caching::external::locks::{
    lock_token_from, new_lock_token, record_extend_reply, record_lock_reply, LockReply,
};
use imagik::caching::external::store::{
    record_get_reply, version_from_bytes, CacheReply, ResultStorePlan,
};
use imagik::caching::external::{cache_url, ExternalCache};
use imagik::config::env::EnvVars;
use imagik::observability::metrics::labels::ExternalCacheLayer;
use imagik::observability::metrics::registry::Metrics;

fn env(pairs: &[(&str, &str)]) -> EnvVars {
    EnvVars {
        vars: pairs.iter().map(|(k, v)| (k.to_string(), v.to_string())).collect(),
    }
}

#[test]
fn parse_info_extracts_numbers() {
    let info = "used_memory:123\nevicted_keys:42\n";
    assert_eq!(parse_info_u64(info, "used_memory"), Some(123));
    assert_eq!(parse_info_u64(info, "evicted_keys"), Some(42));
    assert_eq!(parse_info_u64(info, "missing"), None);
}

#[test]
fn info_lines_skip_unparsable_values_and_trim() {
    let info = "# Memory\r\nused_memory:abc\r\nused_memory: 77 \r\nused_memory_rss:9\r\n";
    assert_eq!(parse_info_u64(info, "used_memory"), Some(77));
    assert_eq!(parse_info_u64(info, "used_memory_rss"), Some(9));
    let mut metrics = Metrics::new();
    apply_info_sample(&mut metrics, "used_memory:5000\nevicted_keys:3\n");
    assert_eq!(metrics.external_cache_memory_bytes, 5000);
    assert_eq!(metrics.external_cache_evicted_keys, 3);
    apply_info_sample(&mut metrics, "nothing here");
    assert_eq!(metrics.external_cache_memory_bytes, 0);
    assert_eq!(metrics.external_cache_evicted_keys, 0);
}

#[test]
fn hot_cache_gives_back_what_was_inserted() {
    let mut cache = InProcessHotCache::new(4, 100, 50);
    assert!(
        cache.insert("a", &[1, 2, 3]) == HotInsertResult::Stored { bytes: 3, evictions: 0 }
    );
    assert_eq!(cache.get("a"), Some(vec![1, 2, 3]));
    assert!(
        cache.insert("a", &[9; 10]) == HotInsertResult::Stored { bytes: 10, evictions: 0 }
    );
    assert_eq!(cache.get("a"), Some(vec![9; 10]));
    assert_eq!(cache.get("b"), None);
}

#[test]
fn hot_cache_skips_oversized_entries() {
    let mut cache = InProcessHotCache::new(4, 100, 50);
    assert!(cache.insert("big", &[0; 51]) == HotInsertResult::Skipped);
    assert_eq!(cache.get("big"), None);
    let mut small = InProcessHotCache::new(4, 20, 50);
    assert!(small.insert("big", &[0; 21]) == HotInsertResult::Skipped);
}

#[test]
fn hot_cache_evicts_least_recently_used_by_bytes() {
    let mut cache = InProcessHotCache::new(10, 100, 100);
    cache.insert("a", &[0; 40]);
    cache.insert("b", &[0; 40]);
    assert!(cache.get("a").is_some());
    let r = cache.insert("c", &[0; 40]);
    assert!(r == HotInsertResult::Stored { bytes: 40, evictions: 1 });
    assert_eq!(cache.get("b"), None);
    assert!(cache.get("a").is_some());
    assert!(cache.get("c").is_some());
}

#[test]
fn hot_cache_full_put_recounts_the_evicted_entry() {
    // A full cache drops its least recently used entry to make room, and its
    // bytes leave the count, so the new entry stays.
    let mut cache = InProcessHotCache::new(1, 15, 15);
    cache.insert("a", &[0; 10]);
    let r = cache.insert("b", &[0; 10]);
    assert!(r == HotInsertResult::Stored { bytes: 10, evictions: 0 });
    assert_eq!(cache.get("a"), None);
    assert_eq!(cache.get("b"), Some(vec![0; 10]));

    let mut small = InProcessHotCache::new(1, 10, 10);
    small.insert("a", &[1; 6]);
    let r = small.insert("b", &[2; 6]);
    assert!(r == HotInsertResult::Stored { bytes: 6, evictions: 0 });
    assert_eq!(small.get("b"), Some(vec![2; 6]));
    assert_eq!(small.get("a"), None);
}

#[test]
fn hot_cache_full_put_keeps_the_new_entry_when_room_is_left() {
    // The entry made room for leaves the count with its bytes.
    let mut cache = InProcessHotCache::new(1, 15, 15);
    cache.insert("a", &[1; 4]);
    let r = cache.insert("b", &[2; 10]);
    assert!(r == HotInsertResult::Stored { bytes: 10, evictions: 0 });
    assert_eq!(cache.get("a"), None);
    assert_eq!(cache.get("b"), Some(vec![2; 10]));
}

#[test]
fn cache_config_defaults_and_floors() {
    let cfg = CacheConfig::from_env(&env(&[]));
    assert_eq!(cfg.prefix, "imagik:v1");
    assert_eq!(cfg.source_ttl_secs, 300);
    assert_eq!(cfg.result_ttl_secs, 3600);
    assert_eq!(cfg.unknown_result_ttl_secs, 5);
    assert_eq!(cfg.version_ttl_secs, 30);
    assert_eq!(cfg.source_max_store_bytes, 16 * 1024 * 1024);
    assert_eq!(cfg.result_max_store_bytes, 8 * 1024 * 1024);
    assert_eq!(cfg.lock_ttl_ms, 60_000);
    assert_eq!(cfg.lock_wait_ms, 20_000);
    assert_eq!(cfg.lock_poll_ms, 50);
    assert_eq!(cfg.lock_heartbeat_ms, 5_000);
    assert_eq!(cfg.info_sample_interval_ms, 5_000);
    assert!(!cfg.adaptive_ttl);
    assert_eq!(cfg.freq_window_secs, 300);
    assert_eq!(cfg.hot_threshold, 16);
    assert_eq!(cfg.hot_ttl_multiplier, 3);
    assert!(cfg.hot_cache_enabled);
    assert_eq!(cfg.hot_cache_max_bytes, 64 * 1024 * 1024);
    assert_eq!(cfg.hot_cache_max_entry_bytes, 2 * 1024 * 1024);
    assert_eq!(cfg.hot_cache_max_items, 512);

    let cfg = CacheConfig::from_env(&env(&[
        ("IMAGIK_CACHE_PREFIX", "  app:v2 "),
        ("IMAGIK_CACHE_SOURCE_TTL_SECS", "0"),
        ("IMAGIK_CACHE_LOCK_TTL_MS", "10"),
        ("IMAGIK_CACHE_ADAPTIVE_TTL", "YES"),
        ("IMAGIK_HOT_CACHE_ENABLED", " true"),
        ("IMAGIK_HOT_CACHE_MAX_ITEMS", "0"),
        ("IMAGIK_CACHE_HOT_THRESHOLD", "x"),
    ]));
    assert_eq!(cfg.prefix, "app:v2");
    assert_eq!(cfg.source_ttl_secs, 1);
    assert_eq!(cfg.lock_ttl_ms, 500);
    assert!(cfg.adaptive_ttl);
    assert!(!cfg.hot_cache_enabled);
    assert_eq!(cfg.hot_cache_max_items, 1);
    assert_eq!(cfg.hot_threshold, 16);
}

#[test]
fn cache_url_needs_more_than_whitespace() {
    assert_eq!(cache_url(&env(&[("IMAGIK_CACHE_URL", "  ")])), None);
    assert_eq!(
        cache_url(&env(&[("IMAGIK_CACHE_URL", " redis://h:6379 ")])),
        Some(" redis://h:6379 ".to_string())
    );
    assert_eq!(cache_url(&env(&[])), None);
}

#[test]
fn keys_are_namespaced_and_hashed() {
    let cache = ExternalCache::new(CacheConfig::from_env(&env(&[])));
    let key = cache.build_result_cache_key("photos/a.jpg", "v1", "fmt=webp");
    let parts: Vec<&str> = key.split(':').collect();
    assert_eq!(parts.len(), 6);
    assert_eq!(&parts[..3], &["imagik", "v1", "result"]);
    assert_eq!(parts[3], blake3::hash(b"photos/a.jpg").to_hex().as_str());
    assert_eq!(parts[4], blake3::hash(b"v1").to_hex().as_str());
    assert!(parts[3..].iter().all(|p| p.len() == 64));
    let lock = cache.build_result_lock_key(&key);
    assert!(lock.starts_with("imagik:v1:lock:result:"));
    assert_eq!(
        cache.version_key("x"),
        format!("imagik:v1:version:{}", blake3::hash(b"x").to_hex())
    );
    assert_eq!(
        cache.frequency_key(ExternalCacheLayer::Source, "k"),
        format!("imagik:v1:freq:source:{}", blake3::hash(b"k").to_hex())
    );
    assert!(cache.build_source_lock_key("o", "v").starts_with("imagik:v1:lock:source:"));
    assert!(cache.source_entry_key("o", "v").starts_with("imagik:v1:source:"));
    assert_eq!(colon_key(&["a", "", "b"]), "a::b");
    assert_eq!(colon_key(&[]), "");
}

#[test]
fn hot_results_go_through_the_cache_and_the_metrics() {
    let mut cache = ExternalCache::new(CacheConfig::from_env(&env(&[])));
    let mut metrics = Metrics::new();
    assert_eq!(cache.get_hot_result(&mut metrics, "k"), None);
    cache.set_hot_result(&mut metrics, "k", &[1, 2]);
    assert_eq!(cache.get_hot_result(&mut metrics, "k"), Some(vec![1, 2]));
    let hot = ExternalCacheLayer::HotResult.as_index();
    assert_eq!(metrics.cache_misses[hot], 1);
    assert_eq!(metrics.cache_hits[hot], 1);
    assert_eq!(metrics.cache_stores[hot], 1);
    assert_eq!(metrics.cache_store_bytes_total[hot], 2);

    let mut disabled = ExternalCache::new(CacheConfig::from_env(&env(&[(
        "IMAGIK_HOT_CACHE_ENABLED",
        "0",
    )])));
    disabled.set_hot_result(&mut metrics, "k", &[1]);
    assert_eq!(disabled.get_hot_result(&mut metrics, "k"), None);
    assert_eq!(metrics.cache_misses[hot], 1);
}

#[test]
fn store_plans_and_time_to_live() {
    let mut cache = ExternalCache::new(CacheConfig::from_env(&env(&[(
        "IMAGIK_CACHE_ADAPTIVE_TTL",
        "on",
    )])));
    let mut metrics = Metrics::new();
    assert!(cache.plan_result_store(&mut metrics, "k", &[1], None) == ResultStorePlan::Skip);
    cache.set_connected(&mut metrics, true);
    assert_eq!(metrics.external_cache_enabled, 1);
    assert!(
        cache.plan_result_store(&mut metrics, "k", &[1], Some(5)) == ResultStorePlan::StoreWithTtl(5)
    );
    assert!(
        cache.plan_result_store(&mut metrics, "k", &[1], None)
            == ResultStorePlan::StoreWithEffectiveTtl
    );
    let big = vec![0u8; 8 * 1024 * 1024 + 1];
    assert!(cache.plan_result_store(&mut metrics, "big", &big, None) == ResultStorePlan::Skip);
    assert_eq!(metrics.cache_skips_too_large[ExternalCacheLayer::Result.as_index()], 1);
    assert!(cache.admit_source_store(&mut metrics, 10));
    assert!(!cache.admit_source_store(&mut metrics, 16 * 1024 * 1024 + 1));
    assert_eq!(cache.base_ttl_secs(ExternalCacheLayer::Version), 30);
    assert_eq!(cache.effective_ttl_secs(ExternalCacheLayer::Result, Some(16)), 10_800);
    assert_eq!(cache.effective_ttl_secs(ExternalCacheLayer::Result, Some(15)), 3_600);
    assert_eq!(cache.effective_ttl_secs(ExternalCacheLayer::Source, Some(-4)), 300);
    assert_eq!(cache.effective_ttl_secs(ExternalCacheLayer::Source, None), 300);
    assert_eq!(cache.lock_heartbeat_ms(), 5_000);
    assert_eq!(cache.unknown_result_ttl_secs(), 5);
    assert!(cache.wait_may_poll(19_999_999_999));
    assert!(!cache.wait_may_poll(20_000_000_000));
}

#[test]
fn heartbeat_is_bounded_by_half_the_lock_ttl() {
    let cache = ExternalCache::new(CacheConfig::from_env(&env(&[
        ("IMAGIK_CACHE_LOCK_TTL_MS", "600"),
        ("IMAGIK_CACHE_LOCK_HEARTBEAT_MS", "5000"),
    ])));
    assert_eq!(cache.lock_heartbeat_ms(), 300);
    let tight = ExternalCache::new(CacheConfig::from_env(&env(&[
        ("IMAGIK_CACHE_LOCK_TTL_MS", "500"),
        ("IMAGIK_CACHE_LOCK_HEARTBEAT_MS", "100"),
    ])));
    assert_eq!(tight.lock_heartbeat_ms(), 100);
}

#[test]
fn replies_are_recorded() {
    let mut metrics = Metrics::new();
    assert!(record_get_reply(&mut metrics, ExternalCacheLayer::Source, CacheReply::Hit, 3));
    assert!(!record_get_reply(&mut metrics, ExternalCacheLayer::Source, CacheReply::Miss, 3));
    assert!(!record_get_reply(&mut metrics, ExternalCacheLayer::Source, CacheReply::Failed, 3));
    assert_eq!(metrics.cache_hits[0], 1);
    assert_eq!(metrics.cache_misses[0], 1);
    assert_eq!(metrics.cache_errors[0], 1);
    assert!(record_lock_reply(&mut metrics, LockReply::Acquired, 1));
    assert!(!record_lock_reply(&mut metrics, LockReply::Contended, 1));
    assert_eq!(metrics.cache_lock_acquired_total, 1);
    assert_eq!(metrics.cache_lock_contended_total, 1);
    assert!(record_extend_reply(&mut metrics, Some(1)));
    assert!(!record_extend_reply(&mut metrics, Some(0)));
    assert!(!record_extend_reply(&mut metrics, None));
    assert_eq!(metrics.cache_lock_errors_total, 1);
}

#[test]
fn lock_tokens_are_thirty_two_hex_digits() {
    assert_eq!(lock_token_from(1, 0xabc), "00000000000000010000000000000abc");
    let token = new_lock_token();
    assert_eq!(token.len(), 32);
    assert!(token.chars().all(|c| c.is_ascii_hexdigit() && !c.is_ascii_uppercase()));
}

#[test]
fn cached_versions_are_nonempty_utf8() {
    assert_eq!(version_from_bytes(b"v1".to_vec()), Some("v1".to_string()));
    assert_eq!(version_from_bytes(Vec::new()), None);
    assert_eq!(version_from_bytes(vec![0xff, 0xfe]), None);
}
