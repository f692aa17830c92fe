//! Core logic for a media-acquisition workflow driven through two external
//! command-line tools: an extraction tool that inspects a URL and emits
//! structured metadata (or performs the download itself), and a transcoding
//! tool that remuxes or converts the downloaded streams.
//!
//! The library classifies a URL as a single video, a playlist, or nothing
//! actionable; builds the exact invocation argument list for a chosen output
//! format and quality; resolves a collision-free destination directory name;
//! and turns an observed process exit into a terminal run outcome. All
//! process spawning, filesystem probing and user interface plumbing live in
//! the surrounding application; this crate holds the decisions.

pub mod args;
pub mod binaries;
pub mod config;
pub mod decimal;
pub mod json;
pub mod metadata;
pub mod outcome;
pub mod pipeline;
pub mod resolve;
pub mod strutil;
