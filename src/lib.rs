//! A registry of clubs: owners, dues rates and member rosters, driven by a
//! small authorization-gated state machine.

pub mod accounting;
pub mod club;
pub mod ledger;
pub mod pallet;
pub mod laws;
