//! Failure-classification core for a batch content-ingestion pipeline.
//!
//! A per-file operation (open the file, detect the frontmatter fence, parse
//! the block, extract fields) can fail at any stage. This crate defines the
//! closed set of leaf error kinds such an operation can produce, each carrying
//! the directory context it occurred in and a human-readable reason, and the
//! unified wrapper type every per-file operation returns on failure, so that
//! a batch driver can decide "skip and continue" versus "abort" without
//! knowing which stage failed.

pub mod constants;
pub mod operation_result;
