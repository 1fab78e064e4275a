//! Core logic of a build-artifact cleaner.
//!
//! A directory is a project root for an ecosystem when one of its direct
//! child entries matches an indicator pattern; under a root, the listed
//! target directories that exist are removed (or merely reported, in
//! dry-run mode).  This crate holds the verified part: pattern matching,
//! classification of directory listings, planning which targets to act on,
//! outcome counting, and the report lines.  Walking the real filesystem and
//! deleting directories stay outside.

pub mod pattern;
pub mod counters;
pub mod engine;
pub mod laws;
pub mod report;
pub mod rules;
