//! Admission and membership lifecycle for a membership-based facility.
//!
//! The library holds the rules: the status a membership should have on a
//! given day, the pipeline that decides one scan of a credential and writes
//! the audit ledger, the reconciliation pass that moves memberships through
//! their date-based transitions, and the checks and clauses that the
//! listings and the administration need. It works on a `Store` of plain
//! values and on readings of an injected clock; all input and output is left
//! to the application around it.

use vstd::prelude::*;

pub mod admin;
pub mod admission;
pub mod admission_laws;
pub mod backup;
pub mod clock;
pub mod dto;
pub mod error;
pub mod ledger;
pub mod lifecycle;
pub mod members;
pub mod membership;
pub mod models;
pub mod query;
pub mod registry;
pub mod state;
pub mod sweeper;
pub mod text;

verus! {

/// One-time initialisation hook of the library. The library keeps no global
/// state, so there is nothing to set up.
pub fn library_setup_function() {
}

} // verus!
