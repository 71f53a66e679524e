//! The errors that the vault lifecycle can report.

use vstd::prelude::*;

verus! {

/// Why an `initialize` invocation was rejected. Every error is detected
/// before any mutation, so a rejected invocation leaves every account as it
/// was.
#[derive(Clone, Copy, Debug, PartialEq, Eq, Structural)]
pub enum VaultError {
    /// The supplied vault account does not match the derived address.
    InvalidVaultAddress,
    /// The vault already carries the initialized state tag.
    AlreadyInitialized,
    /// The signer cannot cover the rent-exemption minimum.
    InsufficientFunds,
    /// No bump in 0..=255 produced an off-curve address.
    DerivationExhausted,
}

} // verus!
