//! The image request: its object key, the decisions of its flow, and the
//! request and source loading as state machines.
pub mod flow;
pub mod key;
pub mod request;
pub mod source;
