//! Multi-agent pull-request review pipeline.
//!
//! The crate models one review run: resolving a target URL, deciding whether a
//! head commit was already reviewed (marker-based dedup), fanning a review
//! request out to several provider agents, and publishing per-agent comments
//! plus a final summary back to the hosting VCS. Network and process I/O live
//! outside the crate; everything here is the decision logic, specified and
//! verified.

pub mod adapters;
pub mod config;
pub mod console;
pub mod inspect;
pub mod pipeline;
pub mod policy;
pub mod prompt;
pub mod providers;
pub mod render;
pub mod review;
pub mod strutil;
pub mod target;
pub mod usage;
pub mod vcs;
pub mod version;

pub use review::TokenUsage;

