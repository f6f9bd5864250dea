//! Metrics: counters and histograms in a registry, and their Prometheus export.
pub mod cache;
pub mod export;
pub mod labels;
pub mod latency;
pub mod pipeline;
pub mod registry;
pub mod request;
pub mod system;

pub use cache::{
    record_cache_error, record_cache_evictions, record_cache_get_latency, record_cache_hit,
    record_cache_lock_acquired, record_cache_lock_contended, record_cache_lock_error,
    record_cache_lock_release_error, record_cache_lock_timeout, record_cache_lock_wait,
    record_cache_miss, record_cache_set_latency, record_cache_skip_too_large, record_cache_store,
    record_storage_retry, record_unknown_version, set_external_cache_enabled,
    set_external_cache_stats,
};
pub use export::render_prometheus;
pub use labels::{ExternalCacheLayer, PipelineStage, ScratchBuffer};
pub use registry::Metrics;
pub use pipeline::record_stage_latency;
pub use request::{
    record_blocking_task_started, record_processing_latency, record_queue_wait,
    record_request_finished, TransformInFlightGuard,
};
pub use system::{
    apply_process_status, record_blocking_thread_usage, record_scratch_capacity,
    set_runtime_limits,
};
