//! Retrieval core for a paginated real-estate listing feed: typed record
//! extraction from a prefix-keyed page snapshot, locale-aware field
//! normalization, per-location pagination with identity-key deduplication,
//! and merging of independently fetched location results.
//!
//! The network transport and the persistence sink live outside this crate;
//! this library holds the logic between them, with contracts.

pub mod extract;
pub mod models;
pub mod normalize;
pub mod paginate;
pub mod schedule;
pub mod text;
