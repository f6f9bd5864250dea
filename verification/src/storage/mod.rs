//! Object storage: configuration, keys and URLs, retries and the local disk cache.
pub mod object;
