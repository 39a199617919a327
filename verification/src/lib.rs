//! A custodial vault ledger: per-owner accounts that hold a balance of
//! native currency units, with owner-only withdrawal, open deposits, and
//! overflow-protected lifetime accounting totals.

pub mod address;
pub mod errors;
pub mod laws;
pub mod ledger;
pub mod vault;
