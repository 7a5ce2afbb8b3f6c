//! A content-hash-addressed build-task cache: a transactional metadata
//! index coupled with a mirrored filesystem artifact store, with time-based
//! eviction and a structural self-check for drift between the two.

pub mod cache;
pub mod db;
pub mod errors;
mod fsops;
pub mod model;
pub mod paths;

pub use cache::CachedResult;
pub use cache::NxCache;
pub use cache::DEFAULT_TTL_SECONDS;
pub use errors::CacheError;
