//! Incremental change detection over a directory tree.
//!
//! A scan walks a tree breadth-first, drops files that are too small or carry
//! an excluded extension, and reconciles every remaining file against the
//! record last stored for its absolute path: a file that has no record is
//! inserted, a file that is newer than its record is updated, and any other
//! file is skipped without its content being read.
//!
//! The library holds the decisions and the fingerprinting; reading the file
//! system and talking to the record store is left to the caller, who hands
//! plain values in and carries the answers out.

pub mod fingerprint;
pub mod filter;
pub mod models;
pub mod timestamp;
pub mod reconcile;
pub mod scan;
pub mod traverse;
