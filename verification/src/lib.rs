//! A verified video feed acquisition engine.
//!
//! The library turns a paging position into an ordered, chunked stream of
//! resolved post records, choosing between two upstream sources: a
//! deterministic paginated catalog and a personalized recommendation feed,
//! with a layered fallback policy when the preferred source fails.
//!
//! Network transport is out of scope: callers perform the upstream calls that
//! the engine asks for and hand the plain responses back, so every decision
//! the engine makes — source selection, fallback, exhaustion detection,
//! order-preserving chunked resolution — is verified here.

pub mod cursor;
pub mod error;
pub mod feed;
pub mod post;
pub mod resolver;
