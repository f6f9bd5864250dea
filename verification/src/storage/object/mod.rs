//! Object storage access through signed URLs or an S3-compatible API.
//!
//! - `config`: settings read from the environment, and the access mode
//! - `client`: the cache namespace of an access mode
//! - `key`: object keys, signed URLs and version tokens
//! - `retry`: which failures are retried, and the backoff between attempts
//! - `fetch`: the decisions of the fetch loops
//! - `disk_cache`: the policy of the local cache of source bytes
pub mod client;
pub mod config;
pub mod disk_cache;
pub mod fetch;
pub mod key;
pub mod retry;

pub use fetch::{ObjectStorageSource, SourceObject};


