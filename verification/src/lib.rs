//! Vault account lifecycle for an on-chain wagering program.
//!
//! The library derives the program-owned vault's address from fixed seed
//! bytes and the program identity, and performs the one-time initialization
//! of the vault's persisted state, rejecting forged addresses, replays and
//! underfunded signers before any mutation.

pub mod constants;
pub mod derivation;
pub mod errors;
pub mod pubkey;
pub mod vault;

pub use crate::vault::initialize;
