//! Ranked-choice polling for a replicated ledger.
//!
//! A poll is opened by a proposer, collects at most one ranked ballot per
//! voter while it is active, and is closed once and for all by its proposer.
//! Every transition is verified against a mathematical model of the ledger.

pub mod call;
pub mod crypto;
pub mod error;
pub mod event;
pub mod laws;
pub mod ledger;
pub mod offchain;
pub mod poll;
pub mod rules;
pub mod state;
