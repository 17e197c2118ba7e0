//! A small polling engine: polls ("timbas") with typed option sets, vote
//! admission with per-voter deduplication and deadline enforcement, result
//! aggregation, and a best-effort creation-event feed.

pub mod aggregate;
pub mod clock;
pub mod engine;
pub mod feed;
pub mod models;
pub mod resolver;
pub mod stored;
pub mod text;
pub mod vote;
