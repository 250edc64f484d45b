//! A cache in front of an expensive database export.
//!
//! The export is a full dump of the gacha tables, produced by an external
//! program. The library keeps the latest dump together with the time it was
//! taken, decides when it has gone stale, and coordinates refreshes so that
//! at most one export runs at a time. Running the program, reading the clock
//! and speaking HTTP are left to the embedding application: the library is
//! told what happened and answers with what to do next.

pub mod clock;
pub mod config;
pub mod coordinator;
pub mod decimal;
pub mod domain;
pub mod error;
pub mod export;
pub mod infra_repository_impls;
pub mod presentation;
pub mod staleness;
pub mod store;
