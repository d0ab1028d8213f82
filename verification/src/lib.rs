//! A heuristic vulnerability scanner for smart-contract source text.
//!
//! The scanner walks a contract line by line, tracks a small amount of
//! lexical state (block comments and `unchecked` arithmetic blocks), and
//! runs a fixed battery of substring-based detectors, each of which flags
//! lines for one vulnerability category.  Reports over the resulting
//! findings can be rendered as plain text, JSON, or CSV.
//!
//! Every scan and every report is specified as a function of the source
//! text (and, for JSON, a timestamp) alone, so scanning is deterministic
//! and idempotent: two scans of identical text yield identical,
//! order-preserving finding sequences.

pub mod examples;
pub mod models;
pub mod overflow;
pub mod paths;
pub mod pattern_match;
pub mod report;
pub mod scanner;
pub mod sizes;
pub mod text;
pub mod time;
