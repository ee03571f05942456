//! A custodial balance ledger keyed by (owner, asset), with deterministic
//! entry addresses and a two-layer delegation handoff.

pub mod address;
pub mod ledger;
pub mod laws;
