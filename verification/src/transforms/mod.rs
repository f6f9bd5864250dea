//! Parameter parsers for the image filters, and the integer geometry of transforms.
pub mod debug;
pub mod filter;
pub mod geometry;
pub mod pixels;
pub mod scratch;
