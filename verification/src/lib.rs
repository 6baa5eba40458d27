//! Verified account rules and instruction plans of two Anchor programs: a
//! lamport vault and a token escrow.
pub mod pda;
pub mod accounts;
pub mod vault;
pub mod escrow;

