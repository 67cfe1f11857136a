//! Lifecycle rules of a command-line client for a coding-exercise platform:
//! exercise metadata, the submission protocol, language policies, coverage
//! summaries and file checksums, each stated with a contract and proved.

pub mod checksum;
pub mod config;
pub mod coverage;
pub mod decimal;
pub mod error;
pub mod language;
pub mod meta;
pub mod submission;
pub mod text;
