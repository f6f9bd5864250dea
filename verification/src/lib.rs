//! Verified core of an image transformation service: query parsing,
//! configuration, cache keys and policies, and metrics.
pub mod aliases;
pub mod caching;
pub mod config;
pub mod encoding;
pub mod handlers;
pub mod models;
pub mod pipeline;
pub mod storage;
pub mod text;
pub mod transforms;
pub mod utils;
pub mod observability;
