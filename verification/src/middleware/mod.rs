//! The decisions of the bundled middleware.
pub mod cache;
pub mod prefix;

pub use cache::Cache;
pub use prefix::PrefixMiddleware;
