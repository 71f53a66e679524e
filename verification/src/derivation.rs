//! Program-derived address search.
//!
//! The vault address is derived by hashing the seed bytes, a bump byte and
//! the program identity, searching bumps from 255 downward for the first
//! digest that is not a valid curve point. The off-curve property is the
//! security property: such an address can never be a user-controlled key.

use vstd::prelude::*;

use crate::errors::VaultError;
use crate::pubkey::Pubkey;

verus! {

/// The digest that the host computes for one derivation attempt: the hash
/// of the seed bytes, the bump byte and the program identity (with the
/// host's derivation domain separator).
pub uninterp spec fn pda_candidate(seed: Seq<u8>, bump: u8, program_id: Seq<u8>) -> Seq<u8>;

/// Whether 32 bytes decode to a valid point on the host's elliptic curve.
pub uninterp spec fn on_curve(address: Seq<u8>) -> bool;

/// A bump is usable when its candidate digest falls off the curve.
pub open spec fn bump_found(seed: Seq<u8>, program_id: Seq<u8>, bump: u8) -> bool {
    !on_curve(pda_candidate(seed, bump, program_id))
}

/// The first usable bump at or below `from`, searching downward.
pub open spec fn spec_find_bump(seed: Seq<u8>, program_id: Seq<u8>, from: int) -> Option<u8>
    decreases from + 1,
{
    if from < 0 {
        None
    } else if bump_found(seed, program_id, from as u8) {
        Some(from as u8)
    } else {
        spec_find_bump(seed, program_id, from - 1)
    }
}

/// The canonical derivation: the candidate digest for the highest usable
/// bump, or nothing when every bump yields an on-curve digest.
pub open spec fn spec_derive(seed: Seq<u8>, program_id: Seq<u8>) -> Option<(Seq<u8>, u8)> {
    match spec_find_bump(seed, program_id, 255) {
        Some(b) => Some((pda_candidate(seed, b, program_id), b)),
        None => None,
    }
}

/// What makes a (address, bump) pair the canonical derivation for a seed
/// and a program identity: the bump's digest is off-curve, every higher
/// bump's digest is on-curve, and the address is that digest.
pub open spec fn canonical_derivation(
    seed: Seq<u8>,
    program_id: Seq<u8>,
    address: Seq<u8>,
    bump: u8,
) -> bool {
    &&& bump_found(seed, program_id, bump)
    &&& forall|b: u8| bump < b ==> !bump_found(seed, program_id, b)
    &&& address == pda_candidate(seed, bump, program_id)
}

/// Relies on the `Pubkey::create_program_address` that anchor_lang
/// re-exports: it hashes the seed slices, then the program identity and the
/// derivation domain separator, returns the digest when it is not a curve
/// point and `InvalidSeeds` when it is. With two seed slices (the seed and
/// the one-byte bump), each at most 32 bytes, no other outcome exists.
/// The digest names `pda_candidate` (the host's sha256-based derivation
/// hash); the rejection test names `on_curve` (the host's
/// `bytes_are_curve_point`).
#[verifier::external_body]
fn create_program_address(seed: &[u8], bump: u8, program_id: &Pubkey) -> (r: Option<Pubkey>)
    requires
        seed@.len() <= 32,
    ensures
        r is Some <==> !on_curve(pda_candidate(seed@, bump, program_id@)),
        r matches Some(a) ==> a@ == pda_candidate(seed@, bump, program_id@),
{
    let pid = anchor_lang::prelude::Pubkey::new_from_array(program_id.bytes);
    let bump_slice = [bump];
    match anchor_lang::prelude::Pubkey::create_program_address(&[seed, &bump_slice], &pid) {
        Ok(address) => Some(Pubkey { bytes: address.to_bytes() }),
        Err(_) => None,
    }
}

/// Search bumps from 255 downward for the first off-curve candidate digest,
/// returning the derived address and its bump, or `DerivationExhausted`
/// when no bump works.
pub fn find_program_address(seed: &[u8], program_id: &Pubkey) -> (r: Result<
    (Pubkey, u8),
    VaultError,
>)
    requires
        seed@.len() <= 32,
    ensures
        r matches Ok(p) ==> spec_derive(seed@, program_id@) == Some((p.0@, p.1)),
        r matches Err(e) ==> e == VaultError::DerivationExhausted && spec_derive(
            seed@,
            program_id@,
        ) is None,
{
    let mut bump: u8 = 255;
    loop
        invariant
            seed@.len() <= 32,
            spec_find_bump(seed@, program_id@, 255) == spec_find_bump(
                seed@,
                program_id@,
                bump as int,
            ),
        ensures
            spec_find_bump(seed@, program_id@, 255) is None,
        decreases bump,
    {
        match create_program_address(seed, bump, program_id) {
            Some(address) => {
                proof {
                    assert(spec_find_bump(seed@, program_id@, bump as int) == Some(bump));
                }
                return Ok((address, bump));
            },
            None => {},
        }
        proof {
            assert(spec_find_bump(seed@, program_id@, bump as int) == spec_find_bump(
                seed@,
                program_id@,
                bump as int - 1,
            ));
        }
        if bump == 0 {
            proof {
                assert(spec_find_bump(seed@, program_id@, -1) is None);
            }
            break ;
        }
        bump = bump - 1;
    }
    Err(VaultError::DerivationExhausted)
}

/// Every derivation that succeeds is canonical, and a failed derivation
/// means that no bump at all is usable.
pub proof fn lemma_find_bump_canonical(seed: Seq<u8>, program_id: Seq<u8>, from: int)
    requires
        from <= 255,
    ensures
        match spec_find_bump(seed, program_id, from) {
            Some(b) => 0 <= b <= from && bump_found(seed, program_id, b) && forall|b2: u8|
                b < b2 <= from ==> !bump_found(seed, program_id, b2),
            None => forall|b2: u8| b2 <= from ==> !bump_found(seed, program_id, b2),
        },
    decreases from + 1,
{
    if from >= 0 {
        if !bump_found(seed, program_id, from as u8) {
            lemma_find_bump_canonical(seed, program_id, from - 1);
        }
    }
}

/// Determinism of the derivation, stated as uniqueness: the canonical
/// (address, bump) pair for a seed and a program identity is unique, so
/// repeated derivations with the same inputs always agree.
pub proof fn lemma_derivation_deterministic(
    seed: Seq<u8>,
    program_id: Seq<u8>,
    address1: Seq<u8>,
    bump1: u8,
    address2: Seq<u8>,
    bump2: u8,
)
    requires
        canonical_derivation(seed, program_id, address1, bump1),
        canonical_derivation(seed, program_id, address2, bump2),
    ensures
        address1 == address2,
        bump1 == bump2,
{
    if bump1 < bump2 {
        assert(!bump_found(seed, program_id, bump2));
    }
    if bump2 < bump1 {
        assert(!bump_found(seed, program_id, bump1));
    }
}

/// A successful derivation yields the canonical pair; in particular its
/// address fails the host's on-curve check.
pub proof fn lemma_derive_canonical(seed: Seq<u8>, program_id: Seq<u8>)
    ensures
        spec_derive(seed, program_id) matches Some(p) ==> canonical_derivation(
            seed,
            program_id,
            p.0,
            p.1,
        ),
        spec_derive(seed, program_id) is None ==> forall|b: u8|
            !bump_found(seed, program_id, b),
{
    lemma_find_bump_canonical(seed, program_id, 255);
}

/// Off-curve guarantee: an address that the derivation returns is never a
/// valid curve point, so it can never be a user-controlled key.
pub proof fn lemma_derived_address_off_curve(seed: Seq<u8>, program_id: Seq<u8>)
    ensures
        spec_derive(seed, program_id) matches Some(p) ==> !on_curve(p.0),
{
    lemma_derive_canonical(seed, program_id);
}

} // verus!
