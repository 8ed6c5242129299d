//! Quadratic-funding pool accounting: a funder deposits into an escrow,
//! project owners register under a pool, voters cast votes carrying token
//! amounts, and a distribution routine computes each project's share of the
//! escrow deposit in proportion to its share of the total votes.
//!
//! The host ledger is responsible for durable account storage, signature
//! verification and program-derived addressing; this crate holds the record
//! types and the state transitions between them, with their invariants.

pub mod address;
pub mod errors;
pub mod identity;
pub mod laws;
pub mod ops;
pub mod state;
