//! The token escrow: a maker deposits tokens of one mint into a vault held for
//! an escrow account and asks for an amount of another mint; a taker pays the
//! maker and receives the vault's tokens; or the maker takes them back.
pub mod state;
pub mod make;
pub mod refund;
pub mod take;
pub mod laws;
