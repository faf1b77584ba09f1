//! Derives a semantic version for a checkout from its commit history.
//!
//! The library holds the decisions: which commits count, how each one is
//! classified, how the counts and the branch state become a version. Reading
//! the repository is left to the caller, which hands in plain records.
pub mod args;
pub mod history;
pub mod identifiers;
pub mod laws;
pub mod pattern;
pub mod text;
pub mod version;
