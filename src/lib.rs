//! Staking of unique assets for time-accrued reward tokens: the per-asset
//! stake ledger, its custody protocol and the program-derived authorities
//! that sign for it.

pub mod address;
pub mod record;
pub mod custody;
pub mod program;
pub mod laws;
