//! Builder for push-delivery messages and their canonical JSON wire document.
//!
//! A [`Message`] accumulates optional delivery fields through fluent setters
//! and renders itself as a compact JSON object in which unset fields are
//! omitted entirely. The rendering is specified exactly, down to each
//! character of the document.

pub mod json;
pub mod json_map;
pub mod message;

pub use message::Message;
pub use message::Priority;
