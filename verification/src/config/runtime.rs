//! Blocking thread pool and transform concurrency settings.
use vstd::prelude::*;
use crate::config::env::{env_u64, env_usize, parse_u64, parse_usize, EnvVars};

verus! {

pub const DEFAULT_TRANSFORM_CONCURRENCY_MULTIPLIER: usize = 2;

pub const MIN_TRANSFORM_CONCURRENCY: usize = 1;

/// Settings of the async runtime.
pub struct RuntimeConfig {
    /// Largest number of blocking threads.
    pub max_blocking_threads: usize,
    /// Milliseconds an idle blocking thread is kept alive.
    pub blocking_keep_alive_ms: u64,
    /// Milliseconds between two samples of the resident set size.
    pub rss_sample_interval_ms: u64,
}

/// `cpu * factor`, saturating at the largest `usize`.
pub open spec fn sat_mul_usize(cpu: usize, factor: usize) -> usize {
    if cpu * factor > usize::MAX {
        usize::MAX
    } else {
        (cpu * factor) as usize
    }
}

fn saturating_mul_usize(cpu: usize, factor: usize) -> (r: usize)
    ensures
        r == sat_mul_usize(cpu, factor),
{
    match cpu.checked_mul(factor) {
        Some(v) => v,
        None => usize::MAX,
    }
}

/// Twice the CPU count, at least one.
pub open spec fn default_thread_limit(cpu: usize) -> usize {
    let doubled = sat_mul_usize(cpu, 2);
    if doubled < 1 {
        1
    } else {
        doubled
    }
}

fn thread_limit(cpu: usize) -> (r: usize)
    ensures
        r == default_thread_limit(cpu),
{
    let doubled = saturating_mul_usize(cpu, 2);
    if doubled < 1 {
        1
    } else {
        doubled
    }
}

impl RuntimeConfig {
    /// Reads the runtime settings from the environment, `cpu` being the
    /// available parallelism.
    ///
    /// `IMAGIK_MAX_BLOCKING_THREADS` (at least 1, default twice `cpu`),
    /// `IMAGIK_BLOCKING_KEEP_ALIVE_MS` (at least 250, default 3000) and
    /// `IMAGIK_RSS_SAMPLE_INTERVAL_MS` (at least 100, default 1000).
    pub fn from_env(env: &EnvVars, cpu: usize) -> (cfg: Self)
        ensures
            cfg.max_blocking_threads == env_usize(
                env@,
                "IMAGIK_MAX_BLOCKING_THREADS"@,
                default_thread_limit(cpu),
                1,
            ),
            cfg.blocking_keep_alive_ms == env_u64(env@, "IMAGIK_BLOCKING_KEEP_ALIVE_MS"@, 3000, 250),
            cfg.rss_sample_interval_ms == env_u64(env@, "IMAGIK_RSS_SAMPLE_INTERVAL_MS"@, 1000, 100),
    {
        let max_blocking_threads = parse_usize(
            env,
            "IMAGIK_MAX_BLOCKING_THREADS",
            thread_limit(cpu),
            1,
        );
        let blocking_keep_alive_ms = parse_u64(env, "IMAGIK_BLOCKING_KEEP_ALIVE_MS", 3000, 250);
        let rss_sample_interval_ms = parse_u64(env, "IMAGIK_RSS_SAMPLE_INTERVAL_MS", 1000, 100);
        RuntimeConfig { max_blocking_threads, blocking_keep_alive_ms, rss_sample_interval_ms }
    }
}

/// The transform concurrency limit: `IMAGIK_TRANSFORM_CONCURRENCY` when it is
/// set to at least 1, else twice `cpu` (at least 1).
pub fn configured_transform_concurrency(env: &EnvVars, cpu: usize) -> (limit: usize)
    ensures
        limit == env_usize(
            env@,
            "IMAGIK_TRANSFORM_CONCURRENCY"@,
            default_thread_limit(cpu),
            MIN_TRANSFORM_CONCURRENCY,
        ),
        limit >= 1,
{
    parse_usize(env, "IMAGIK_TRANSFORM_CONCURRENCY", thread_limit(cpu), MIN_TRANSFORM_CONCURRENCY)
}

} // verus!
