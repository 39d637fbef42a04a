//! The mutating operations of the registry, one module per concern. Each
//! operation takes the accounts it touches, the transaction signer, and the
//! current ledger time as plain values; the host ledger resolves accounts
//! and serializes writes around it.

pub mod registry;
pub mod analysis;
pub mod skill_registry;
pub mod auditor;
pub mod badge;
pub mod context;
