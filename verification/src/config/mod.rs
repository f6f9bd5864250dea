//! Configuration read from a snapshot of the process environment.
//!
//! - `env`: the snapshot and typed lookups with defaults and minimums
//! - `decode`: image decode limits (dimensions, pixels, memory)
//! - `runtime`: blocking thread pool and transform concurrency settings
pub mod decode;
pub mod env;
pub mod runtime;
