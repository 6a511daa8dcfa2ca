//! Classifies the files of a directory tree by the verdict of a trust
//! oracle and renders the result as a line-oriented report.
//!
//! The oracle itself (the platform's trust-verification service) and the
//! filesystem enumeration live outside this crate; callers hand the library
//! a [`tree::DirTree`] that records, for every entry, what the enumeration
//! and the oracle said, and the library computes the report.

pub mod outcome;
pub mod report;
pub mod tree;
