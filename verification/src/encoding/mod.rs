//! Output encoding settings.
pub mod webp;
