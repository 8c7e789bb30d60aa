//! A value-custody ledger.
//!
//! The ledger accepts deposits of a designated native asset, issues a
//! receipt token one-to-one through an external fungible-token ledger,
//! redeems receipt tokens for the underlying asset behind an
//! owner-controlled gate, and lets the owner claim the residual custody
//! balance.  Every handler is a pure transition on [`state::Ledger`]:
//! it either fails with a [`error::ContractError`] and leaves the state
//! unchanged, or succeeds and returns the outbound instructions for the
//! host to execute atomically with the state change.

pub mod error;
pub mod msg;
pub mod state;
pub mod contract;
pub mod laws;
