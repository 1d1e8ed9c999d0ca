//! An institution's enrollment ledger: courses, fee-gated enrollment, and a
//! record per (course, student) pair that can be written once only.
//!
//! Each enrollment is decided in two steps. A check says whether the attempt
//! is admissible and which payment (and, at institution level, which
//! credential issuance) the caller must then perform through the outside
//! services; a commit, made once those have succeeded, updates the counters
//! and the ledger.
pub mod error;
pub mod state;
pub mod ledger;
pub mod admin;
pub mod student;
