//! Caching of source bytes and transform results.
pub mod external;
