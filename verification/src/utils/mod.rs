//! Small parsing helpers shared by the parameter parsers.
pub mod parser;
