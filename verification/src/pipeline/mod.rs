//! Request pipeline: query parameter names, and the pieces of the cache signature.
pub mod keys;
pub mod params;
