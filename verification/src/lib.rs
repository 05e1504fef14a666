//! Verified core of a ledger-style program: deterministic address derivation
//! and validation, idempotent storage-account provisioning, and a fixed-capacity
//! binary state codec, sequenced by a single-instruction dispatcher.

pub mod account;
pub mod allocator;
pub mod bytes;
pub mod derivation;
pub mod error;
pub mod instruction;
pub mod interface;
pub mod processor;
pub mod state;
