//! Service metrics and their Prometheus text rendering.
pub mod metrics;
