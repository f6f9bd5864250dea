//! Cache policy read from the environment.
//!
//! Time limits and thresholds have defaults and floors; the adaptive time to
//! live extends the expiry of frequently read entries.
use vstd::prelude::*;
use crate::config::env::{env_lookup, env_u64, env_usize, parse_u64, parse_usize, EnvVars};
use crate::text::{chars_of, is_truthy, lower_seq, string_of, to_ascii_lowercase, trim, trim_ws, truthy};

verus! {

pub const DEFAULT_SOURCE_TTL_SECS: u64 = 300;

pub const DEFAULT_RESULT_TTL_SECS: u64 = 3_600;

pub const DEFAULT_UNKNOWN_RESULT_TTL_SECS: u64 = 5;

pub const DEFAULT_VERSION_TTL_SECS: u64 = 30;

pub const DEFAULT_SOURCE_MAX_STORE_BYTES: usize = 16_777_216;

pub const DEFAULT_RESULT_MAX_STORE_BYTES: usize = 8_388_608;

pub const DEFAULT_LOCK_TTL_MS: u64 = 60_000;

pub const DEFAULT_LOCK_WAIT_MS: u64 = 20_000;

pub const DEFAULT_LOCK_POLL_MS: u64 = 50;

pub const DEFAULT_LOCK_HEARTBEAT_MS: u64 = 5_000;

pub const DEFAULT_INFO_SAMPLE_INTERVAL_MS: u64 = 5_000;

pub const DEFAULT_FREQ_WINDOW_SECS: u64 = 300;

pub const DEFAULT_HOT_THRESHOLD: u64 = 16;

pub const DEFAULT_HOT_TTL_MULTIPLIER: u64 = 3;

pub const DEFAULT_HOT_CACHE_MAX_BYTES: usize = 67_108_864;

pub const DEFAULT_HOT_CACHE_MAX_ENTRY_BYTES: usize = 2_097_152;

pub const DEFAULT_HOT_CACHE_MAX_ITEMS: usize = 512;

/// Cache policy.
pub struct CacheConfig {
    pub prefix: String,
    pub source_ttl_secs: u64,
    pub result_ttl_secs: u64,
    pub unknown_result_ttl_secs: u64,
    pub version_ttl_secs: u64,
    pub source_max_store_bytes: usize,
    pub result_max_store_bytes: usize,
    pub lock_ttl_ms: u64,
    pub lock_wait_ms: u64,
    pub lock_poll_ms: u64,
    pub lock_heartbeat_ms: u64,
    pub info_sample_interval_ms: u64,
    pub adaptive_ttl: bool,
    pub freq_window_secs: u64,
    pub hot_threshold: u64,
    pub hot_ttl_multiplier: u64,
    pub hot_cache_enabled: bool,
    pub hot_cache_max_bytes: usize,
    pub hot_cache_max_entry_bytes: usize,
    pub hot_cache_max_items: usize,
}

/// The larger of `v` and `floor`.
pub open spec fn at_least_u64(v: u64, floor: u64) -> u64 {
    if v < floor {
        floor
    } else {
        v
    }
}

/// The larger of `v` and `floor`.
pub open spec fn at_least_usize(v: usize, floor: usize) -> usize {
    if v < floor {
        floor
    } else {
        v
    }
}

/// The variable `key`, trimmed, when it is set to something other than white
/// space; else `default`.
pub open spec fn env_string_or(vars: Seq<(Seq<char>, Seq<char>)>, key: Seq<char>, default: Seq<char>) -> Seq<char> {
    match env_lookup(vars, key) {
        Some(v) => if trim_ws(v).len() > 0 {
            trim_ws(v)
        } else {
            default
        },
        None => default,
    }
}

/// The variable `key` as a flag: when set, whether it reads `1`, `true`,
/// `yes` or `on` in any case; else `default`.
pub open spec fn env_flag(vars: Seq<(Seq<char>, Seq<char>)>, key: Seq<char>, default: bool) -> bool {
    match env_lookup(vars, key) {
        Some(v) => is_truthy(lower_seq(v)),
        None => default,
    }
}

/// Reads the variable `key` as a string, trimmed, with a default.
pub fn parse_env_string(env: &EnvVars, key: &str, default: &str) -> (v: String)
    ensures
        v@ == env_string_or(env@, key@, default@),
{
    match env.get(key) {
        Some(value) => {
            let chars = chars_of(value.as_str());
            let t = trim(chars.as_slice());
            if t.len() > 0 {
                string_of(t.as_slice())
            } else {
                default.to_owned()
            }
        },
        None => default.to_owned(),
    }
}

/// Reads the variable `key` as a flag, with a default.
pub fn parse_env_bool(env: &EnvVars, key: &str, default: bool) -> (v: bool)
    ensures
        v == env_flag(env@, key@, default),
{
    match env.get(key) {
        Some(value) => {
            let chars = chars_of(value.as_str());
            let lower = to_ascii_lowercase(chars.as_slice());
            truthy(lower.as_slice())
        },
        None => default,
    }
}

fn floor_u64(v: u64, floor: u64) -> (r: u64)
    ensures
        r == at_least_u64(v, floor),
{
    if v < floor {
        floor
    } else {
        v
    }
}

fn floor_usize(v: usize, floor: usize) -> (r: usize)
    ensures
        r == at_least_usize(v, floor),
{
    if v < floor {
        floor
    } else {
        v
    }
}

impl CacheConfig {
    /// Reads the cache policy from the environment: each setting under its
    /// `IMAGIK_CACHE_*` or `IMAGIK_HOT_CACHE_*` name, parsed or defaulted,
    /// then raised to its floor.
    pub fn from_env(env: &EnvVars) -> (cfg: CacheConfig)
        ensures
            cfg.prefix@ == env_string_or(env@, "IMAGIK_CACHE_PREFIX"@, "imagik:v1"@),
            cfg.source_ttl_secs == at_least_u64(
                env_u64(env@, "IMAGIK_CACHE_SOURCE_TTL_SECS"@, DEFAULT_SOURCE_TTL_SECS, 0),
                1,
            ),
            cfg.result_ttl_secs == at_least_u64(
                env_u64(env@, "IMAGIK_CACHE_RESULT_TTL_SECS"@, DEFAULT_RESULT_TTL_SECS, 0),
                1,
            ),
            cfg.unknown_result_ttl_secs == env_u64(
                env@,
                "IMAGIK_CACHE_UNKNOWN_RESULT_TTL_SECS"@,
                DEFAULT_UNKNOWN_RESULT_TTL_SECS,
                0,
            ),
            cfg.version_ttl_secs == at_least_u64(
                env_u64(env@, "IMAGIK_CACHE_VERSION_TTL_SECS"@, DEFAULT_VERSION_TTL_SECS, 0),
                1,
            ),
            cfg.source_max_store_bytes == at_least_usize(
                env_usize(
                    env@,
                    "IMAGIK_CACHE_SOURCE_MAX_STORE_BYTES"@,
                    DEFAULT_SOURCE_MAX_STORE_BYTES,
                    0,
                ),
                1024,
            ),
            cfg.result_max_store_bytes == at_least_usize(
                env_usize(
                    env@,
                    "IMAGIK_CACHE_RESULT_MAX_STORE_BYTES"@,
                    DEFAULT_RESULT_MAX_STORE_BYTES,
                    0,
                ),
                1024,
            ),
            cfg.lock_ttl_ms == at_least_u64(
                env_u64(env@, "IMAGIK_CACHE_LOCK_TTL_MS"@, DEFAULT_LOCK_TTL_MS, 0),
                500,
            ),
            cfg.lock_wait_ms == at_least_u64(
                env_u64(env@, "IMAGIK_CACHE_LOCK_WAIT_MS"@, DEFAULT_LOCK_WAIT_MS, 0),
                50,
            ),
            cfg.lock_poll_ms == at_least_u64(
                env_u64(env@, "IMAGIK_CACHE_LOCK_POLL_MS"@, DEFAULT_LOCK_POLL_MS, 0),
                10,
            ),
            cfg.lock_heartbeat_ms == at_least_u64(
                env_u64(env@, "IMAGIK_CACHE_LOCK_HEARTBEAT_MS"@, DEFAULT_LOCK_HEARTBEAT_MS, 0),
                100,
            ),
            cfg.info_sample_interval_ms == at_least_u64(
                env_u64(
                    env@,
                    "IMAGIK_CACHE_INFO_SAMPLE_INTERVAL_MS"@,
                    DEFAULT_INFO_SAMPLE_INTERVAL_MS,
                    0,
                ),
                250,
            ),
            cfg.adaptive_ttl == env_flag(env@, "IMAGIK_CACHE_ADAPTIVE_TTL"@, false),
            cfg.freq_window_secs == at_least_u64(
                env_u64(env@, "IMAGIK_CACHE_FREQ_WINDOW_SECS"@, DEFAULT_FREQ_WINDOW_SECS, 0),
                30,
            ),
            cfg.hot_threshold == at_least_u64(
                env_u64(env@, "IMAGIK_CACHE_HOT_THRESHOLD"@, DEFAULT_HOT_THRESHOLD, 0),
                2,
            ),
            cfg.hot_ttl_multiplier == at_least_u64(
                env_u64(env@, "IMAGIK_CACHE_HOT_TTL_MULTIPLIER"@, DEFAULT_HOT_TTL_MULTIPLIER, 0),
                2,
            ),
            cfg.hot_cache_enabled == env_flag(env@, "IMAGIK_HOT_CACHE_ENABLED"@, true),
            cfg.hot_cache_max_bytes == at_least_usize(
                env_usize(env@, "IMAGIK_HOT_CACHE_MAX_BYTES"@, DEFAULT_HOT_CACHE_MAX_BYTES, 0),
                1024,
            ),
            cfg.hot_cache_max_entry_bytes == at_least_usize(
                env_usize(
                    env@,
                    "IMAGIK_HOT_CACHE_MAX_ENTRY_BYTES"@,
                    DEFAULT_HOT_CACHE_MAX_ENTRY_BYTES,
                    0,
                ),
                1024,
            ),
            cfg.hot_cache_max_items == at_least_usize(
                env_usize(env@, "IMAGIK_HOT_CACHE_MAX_ITEMS"@, DEFAULT_HOT_CACHE_MAX_ITEMS, 0),
                1,
            ),
            cfg.hot_cache_max_items >= 1,
    {
        let hot_cache_max_items = floor_usize(
            parse_usize(env, "IMAGIK_HOT_CACHE_MAX_ITEMS", DEFAULT_HOT_CACHE_MAX_ITEMS, 0),
            1,
        );
        CacheConfig {
            prefix: parse_env_string(env, "IMAGIK_CACHE_PREFIX", "imagik:v1"),
            source_ttl_secs: floor_u64(
                parse_u64(env, "IMAGIK_CACHE_SOURCE_TTL_SECS", DEFAULT_SOURCE_TTL_SECS, 0),
                1,
            ),
            result_ttl_secs: floor_u64(
                parse_u64(env, "IMAGIK_CACHE_RESULT_TTL_SECS", DEFAULT_RESULT_TTL_SECS, 0),
                1,
            ),
            unknown_result_ttl_secs: parse_u64(
                env,
                "IMAGIK_CACHE_UNKNOWN_RESULT_TTL_SECS",
                DEFAULT_UNKNOWN_RESULT_TTL_SECS,
                0,
            ),
            version_ttl_secs: floor_u64(
                parse_u64(env, "IMAGIK_CACHE_VERSION_TTL_SECS", DEFAULT_VERSION_TTL_SECS, 0),
                1,
            ),
            source_max_store_bytes: floor_usize(
                parse_usize(
                    env,
                    "IMAGIK_CACHE_SOURCE_MAX_STORE_BYTES",
                    DEFAULT_SOURCE_MAX_STORE_BYTES,
                    0,
                ),
                1024,
            ),
            result_max_store_bytes: floor_usize(
                parse_usize(
                    env,
                    "IMAGIK_CACHE_RESULT_MAX_STORE_BYTES",
                    DEFAULT_RESULT_MAX_STORE_BYTES,
                    0,
                ),
                1024,
            ),
            lock_ttl_ms: floor_u64(
                parse_u64(env, "IMAGIK_CACHE_LOCK_TTL_MS", DEFAULT_LOCK_TTL_MS, 0),
                500,
            ),
            lock_wait_ms: floor_u64(
                parse_u64(env, "IMAGIK_CACHE_LOCK_WAIT_MS", DEFAULT_LOCK_WAIT_MS, 0),
                50,
            ),
            lock_poll_ms: floor_u64(
                parse_u64(env, "IMAGIK_CACHE_LOCK_POLL_MS", DEFAULT_LOCK_POLL_MS, 0),
                10,
            ),
            lock_heartbeat_ms: floor_u64(
                parse_u64(env, "IMAGIK_CACHE_LOCK_HEARTBEAT_MS", DEFAULT_LOCK_HEARTBEAT_MS, 0),
                100,
            ),
            info_sample_interval_ms: floor_u64(
                parse_u64(
                    env,
                    "IMAGIK_CACHE_INFO_SAMPLE_INTERVAL_MS",
                    DEFAULT_INFO_SAMPLE_INTERVAL_MS,
                    0,
                ),
                250,
            ),
            adaptive_ttl: parse_env_bool(env, "IMAGIK_CACHE_ADAPTIVE_TTL", false),
            freq_window_secs: floor_u64(
                parse_u64(env, "IMAGIK_CACHE_FREQ_WINDOW_SECS", DEFAULT_FREQ_WINDOW_SECS, 0),
                30,
            ),
            hot_threshold: floor_u64(
                parse_u64(env, "IMAGIK_CACHE_HOT_THRESHOLD", DEFAULT_HOT_THRESHOLD, 0),
                2,
            ),
            hot_ttl_multiplier: floor_u64(
                parse_u64(env, "IMAGIK_CACHE_HOT_TTL_MULTIPLIER", DEFAULT_HOT_TTL_MULTIPLIER, 0),
                2,
            ),
            hot_cache_enabled: parse_env_bool(env, "IMAGIK_HOT_CACHE_ENABLED", true),
            hot_cache_max_bytes: floor_usize(
                parse_usize(env, "IMAGIK_HOT_CACHE_MAX_BYTES", DEFAULT_HOT_CACHE_MAX_BYTES, 0),
                1024,
            ),
            hot_cache_max_entry_bytes: floor_usize(
                parse_usize(
                    env,
                    "IMAGIK_HOT_CACHE_MAX_ENTRY_BYTES",
                    DEFAULT_HOT_CACHE_MAX_ENTRY_BYTES,
                    0,
                ),
                1024,
            ),
            hot_cache_max_items,
        }
    }
}

} // verus!
