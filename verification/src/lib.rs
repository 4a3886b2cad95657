//! Ownership resolver for a fixed catalog of collectible identifiers.
//!
//! The library answers "which items from a fixed catalog does this account
//! hold, and with what descriptive metadata?".  It holds the verified core:
//! the catalog provider, the memoizing metadata cache, the per-identifier
//! outcome policy, and the aggregator that joins exactly one completion per
//! catalog identifier into a deterministic, textually sorted report.
//!
//! Network collaborators (the ledger, the metadata source, the HTTP layer)
//! live outside the library; they hand plain values in and take plain values
//! back.

pub mod address;
pub mod aggregate;
pub mod cache;
pub mod catalog;
pub mod defines;
pub mod digits;
pub mod models;
pub mod requests;
pub mod resolver;
pub mod response;
