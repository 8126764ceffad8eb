//! Incremental archiver for a remote, numerically-indexed record set.
//!
//! The library holds the verified core of the archiver: the error taxonomy,
//! the frontier estimator that picks the highest record id safe to ingest,
//! and the resumable walk that ingests record bodies contiguously while
//! treating per-record artifacts as best-effort extras.

pub mod backfill;
pub mod errors;
pub mod frontier;
pub mod ingest;
pub mod walk;
