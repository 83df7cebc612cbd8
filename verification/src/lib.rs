//! Resolution of the on-disk location of a node's persistent key-value store.
//!
//! The crate combines a configurable override with the platform's conventional
//! application data directory to find the base directory, derives a per-node
//! session subdirectory from the node's identity bytes, decides which session
//! directory a bounded-retention policy evicts once a fixed cap is exceeded,
//! and decides when the cap is exceeded and which directory goes.
//!
//! File-system scanning, directory creation and removal, and the opening of
//! the embedded store are the caller's part: the caller lists the sibling
//! entries of the base directory and hands them to the retention pass, which
//! answers with the entry to remove, if any.

pub mod errors;
pub mod hex_encoding;
pub mod identity;
pub mod paths;
pub mod retention;
