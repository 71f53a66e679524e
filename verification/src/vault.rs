//! Vault account lifecycle: one-time initialization of the program-owned
//! escrow account.
//!
//! The handler re-derives the vault address from the fixed seed and the
//! program identity, checks the supplied account against it, rejects
//! replays and underfunded signers, and only then mutates: it marks the
//! vault initialized, assigns program ownership, records the bump and tops
//! the vault's balance up to the rent-exemption minimum from the signer.

use vstd::prelude::*;

use crate::constants::{spec_vault_seed, vault_seed};
use crate::derivation::{find_program_address, spec_derive};
use crate::errors::VaultError;
use crate::pubkey::Pubkey;

verus! {

/// The one state transition the program defines: a vault is created
/// uninitialized and is marked initialized exactly once.
#[derive(Clone, Copy, Debug, PartialEq, Eq, Structural)]
pub enum VaultState {
    Uninitialized,
    Initialized,
}

/// The account funding the vault's rent and authorizing the transaction.
#[derive(Clone, Copy, Debug, PartialEq, Eq)]
pub struct SignerAccount {
    pub address: Pubkey,
    pub lamports: u64,
}

/// The vault's persisted record: its ledger address and balance, the
/// program that owns it, its lifecycle state, and the bump that made its
/// derivation resolve off-curve (meaningful once initialized).
#[derive(Clone, Copy, Debug, PartialEq, Eq)]
pub struct VaultAccount {
    pub address: Pubkey,
    pub lamports: u64,
    pub owner: Pubkey,
    pub state: VaultState,
    pub bump: u8,
}

/// The vault derivation for this program: fixed seed bytes `b"vault"`.
pub open spec fn spec_vault_derivation(program_id: Seq<u8>) -> Option<(Seq<u8>, u8)> {
    spec_derive(spec_vault_seed(), program_id)
}

/// The supplied vault account carries exactly the derived vault address.
pub open spec fn vault_address_valid(vault: VaultAccount, program_id: Seq<u8>) -> bool {
    spec_vault_derivation(program_id) matches Some(p) && vault.address@ == p.0
}

/// All preconditions of a successful `initialize`: the derivation resolves,
/// the supplied account matches it, the vault is still uninitialized, and
/// the signer covers the rent-exemption minimum.
pub open spec fn init_accepted(
    signer: SignerAccount,
    vault: VaultAccount,
    program_id: Seq<u8>,
    rent_exempt_minimum: u64,
) -> bool {
    &&& vault_address_valid(vault, program_id)
    &&& vault.state is Uninitialized
    &&& signer.lamports >= rent_exempt_minimum
}

/// The effect of a successful `initialize`: the vault keeps its address,
/// is marked initialized, owned by the program, records the derived bump,
/// and its balance is topped up to the rent-exemption minimum from the
/// signer; nothing else about the signer changes.
pub open spec fn init_effect(
    old_signer: SignerAccount,
    old_vault: VaultAccount,
    new_signer: SignerAccount,
    new_vault: VaultAccount,
    program_id: Seq<u8>,
    rent_exempt_minimum: u64,
) -> bool {
    &&& new_vault.address == old_vault.address
    &&& new_vault.state is Initialized
    &&& new_vault.owner@ == program_id
    &&& (spec_vault_derivation(program_id) matches Some(p) && new_vault.bump == p.1)
    &&& new_vault.lamports == if old_vault.lamports >= rent_exempt_minimum {
        old_vault.lamports as int
    } else {
        rent_exempt_minimum as int
    }
    &&& new_signer.address == old_signer.address
    &&& new_signer.lamports == old_signer.lamports - (new_vault.lamports - old_vault.lamports)
}

/// Which error `initialize` reports on which inputs. The checks run in
/// order: derivation, address match, lifecycle state, funding.
pub open spec fn init_error(
    signer: SignerAccount,
    vault: VaultAccount,
    program_id: Seq<u8>,
    rent_exempt_minimum: u64,
    e: VaultError,
) -> bool {
    match e {
        VaultError::DerivationExhausted => spec_vault_derivation(program_id) is None,
        VaultError::InvalidVaultAddress => spec_vault_derivation(program_id) is Some
            && !vault_address_valid(vault, program_id),
        VaultError::AlreadyInitialized => vault_address_valid(vault, program_id)
            && vault.state is Initialized,
        VaultError::InsufficientFunds => vault_address_valid(vault, program_id)
            && vault.state is Uninitialized && signer.lamports < rent_exempt_minimum,
    }
}

/// Derive the vault's address and bump for a program identity, from the
/// fixed seed bytes `b"vault"`. A stateless utility: the handler calls it
/// to validate the supplied account, and an off-chain client can call it to
/// reconstruct the same address.
pub fn find_vault_address(program_id: &Pubkey) -> (r: Result<(Pubkey, u8), VaultError>)
    ensures
        r matches Ok(p) ==> spec_vault_derivation(program_id@) == Some((p.0@, p.1)),
        r matches Err(e) ==> e == VaultError::DerivationExhausted && spec_vault_derivation(
            program_id@,
        ) is None,
{
    let seed = vault_seed();
    find_program_address(seed.as_slice(), program_id)
}

/// One-time initialization of the vault.
///
/// All checks run before any mutation, so a rejected invocation leaves both
/// accounts exactly as they were; the invocation succeeds if and only if
/// every precondition holds.
pub fn initialize(
    signer: &mut SignerAccount,
    vault: &mut VaultAccount,
    program_id: &Pubkey,
    rent_exempt_minimum: u64,
) -> (r: Result<(), VaultError>)
    ensures
        r is Ok <==> init_accepted(*old(signer), *old(vault), program_id@, rent_exempt_minimum),
        r is Ok ==> init_effect(
            *old(signer),
            *old(vault),
            *final(signer),
            *final(vault),
            program_id@,
            rent_exempt_minimum,
        ),
        r matches Err(e) ==> *final(signer) == *old(signer) && *final(vault) == *old(vault)
            && init_error(*old(signer), *old(vault), program_id@, rent_exempt_minimum, e),
{
    let (derived_address, derived_bump) = match find_vault_address(program_id) {
        Ok(p) => p,
        Err(e) => {
            return Err(e);
        },
    };
    if !vault.address.equals(&derived_address) {
        return Err(VaultError::InvalidVaultAddress);
    }
    match vault.state {
        VaultState::Initialized => {
            return Err(VaultError::AlreadyInitialized);
        },
        VaultState::Uninitialized => {},
    }
    if signer.lamports < rent_exempt_minimum {
        return Err(VaultError::InsufficientFunds);
    }
    let top_up = if vault.lamports >= rent_exempt_minimum {
        0
    } else {
        rent_exempt_minimum - vault.lamports
    };
    signer.lamports = signer.lamports - top_up;
    vault.lamports = vault.lamports + top_up;
    vault.owner = Pubkey { bytes: program_id.bytes };
    vault.state = VaultState::Initialized;
    vault.bump = derived_bump;
    Ok(())
}

/// Idempotence rejection: a vault produced by a successful `initialize` is
/// rejected as already initialized by any further `initialize` attempt,
/// whoever signs it and whatever the rent parameter, so a replay can never
/// silently succeed or charge rent twice.
pub proof fn lemma_reinitialize_rejected(
    old_signer: SignerAccount,
    old_vault: VaultAccount,
    new_signer: SignerAccount,
    new_vault: VaultAccount,
    program_id: Seq<u8>,
    rent_exempt_minimum: u64,
    later_signer: SignerAccount,
    later_rent_exempt_minimum: u64,
)
    requires
        init_accepted(old_signer, old_vault, program_id, rent_exempt_minimum),
        init_effect(
            old_signer,
            old_vault,
            new_signer,
            new_vault,
            program_id,
            rent_exempt_minimum,
        ),
    ensures
        !init_accepted(later_signer, new_vault, program_id, later_rent_exempt_minimum),
        init_error(
            later_signer,
            new_vault,
            program_id,
            later_rent_exempt_minimum,
            VaultError::AlreadyInitialized,
        ),
{
}

} // verus!
