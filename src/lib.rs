//! Decides whether a build artifact is stale with respect to a tree of
//! source files: whether some source file that matches the configured glob
//! patterns was modified strictly after the artifact.
//!
//! The library holds the decisions; walking the file system and reading
//! modification times is left to the caller, who feeds each visited entry
//! to a [`Scan`] and performs the action it returns.

pub mod error;
pub mod laws;
pub mod matching;
pub mod options;
pub mod scan;
pub mod timestamp;

pub use error::NeedsRebuildError;
pub use options::{ScanOptions, Traversal};
pub use scan::{start, Action, Scan, Start};
pub use timestamp::Timestamp;
