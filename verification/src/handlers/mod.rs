//! Request handling: the transform parameters and their parsers, and the
//! decisions of the image request.
pub mod image;
pub mod params;
pub mod parser;
