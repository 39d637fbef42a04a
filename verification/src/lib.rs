//! A registry of security-audit attestations for programs deployed on a
//! distributed ledger.
//!
//! Parties register a program by content hash, accredited auditors submit
//! scored findings against it, a catalog of reusable audit skills and
//! detection patterns is curated, and tiered verification badges are issued
//! and revoked based on the latest score.
//!
//! The host ledger (transaction execution, account storage, signatures,
//! clock) is a black box around this crate: every operation here takes the
//! accounts it touches, the transaction signer, and the current ledger time
//! as plain values, and states exactly how it validates and mutates them.
//! The `ledger` module models the ledger's deterministic keyed account
//! storage, where creating a duplicate key fails because the slot is
//! already occupied.

pub mod errors;
pub mod state;
pub mod instructions;
pub mod ledger;
pub mod skills;
pub mod context_engine;
