//! Restores a previously-installed set of command-line binaries from a
//! recorded install manifest: decides which packages still need a rebuild,
//! derives a fully-specified build request for each, and aggregates the
//! per-package outcomes into a final report under a configurable
//! fail-fast policy.

pub mod config;
pub mod engine;
pub mod plan;
pub mod record;
pub mod report;
pub mod request;
