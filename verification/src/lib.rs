//! Leverage-loop position ledger of the Quantara looping contract.
//!
//! A position is opened with an owner, a collateral asset and amount, a debt
//! asset and amount and a leverage (1x-5x, scaled x100), and is recorded under
//! a monotonically increasing position id. The owner may later close it;
//! closing is idempotent in the sense that a second close is answered with a
//! defined error rather than a trap.
//!
//! `rules` holds the decisions that each contract entry point takes,
//! `ledger` holds the verified model of the contract's storage and the laws
//! that relate its operations.

pub mod error;
pub mod position;
pub mod rules;
pub mod ledger;
pub mod laws;
