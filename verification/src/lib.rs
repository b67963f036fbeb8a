//! Verified core of a multilingual dictionary lookup service.
//!
//! The heart of the library is the tiered search engine: given a normalized
//! query it runs up to four match tiers (exact, prefix, contains, fuzzy) in
//! priority order, deduplicates entries across tiers by identity, assigns each
//! result the fixed confidence score of the tier that found it, and returns a
//! score-ordered, budget-capped result list. Storage itself (the search
//! substrate) is an external collaborator: this crate decides what to ask of
//! it and how to merge what comes back.

pub mod models;
pub mod normalize;
pub mod query;
pub mod search;
