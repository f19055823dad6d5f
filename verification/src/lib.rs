//! Normalization of browser network captures (HAR entries) and console events,
//! and their conversion into OTLP JSON payloads.

pub mod handlers;
pub mod internal;
pub mod json;
pub mod parse;
pub mod prelude;
pub mod text;
