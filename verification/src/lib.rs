//! Reconciliation of a mobile CI pipeline with open Gutenberg pull requests.
//!
//! For every open pull request owned by the canonical organisation, the crate
//! derives the name of the mirror branch in the CI control repository, reads
//! what that branch currently records, and decides whether a CI workflow run
//! is owed. All network traffic is left to the caller: the crate turns
//! responses into decisions and decisions into requests.

pub mod branch;
pub mod dispatch;
pub mod fields;
pub mod json;
pub mod mirror;
pub mod model;
pub mod pass;
pub mod query;
pub mod source;
pub mod trace;
