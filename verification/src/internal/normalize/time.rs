//! Request times as Unix nanoseconds.
pub use crate::internal::specs::timing::{end_unix_nano, unix_nano};
