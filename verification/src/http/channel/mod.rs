//! Channel endpoints.
pub mod create_message;
