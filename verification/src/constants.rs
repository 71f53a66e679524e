//! Program-wide constants: derivation seeds and the reserved house edge.

use vstd::prelude::*;

verus! {

/// House edge numerator over an implicit 10_000 denominator (1.5%).
/// Reserved for future payout computation; not consumed by this core.
pub const HOUSE_EDGE: u64 = 150;

/// Declared metadata seed string; not used operationally by this core.
pub const SEED: &'static str = "anchor";

/// The seed bytes used for vault address derivation: `b"vault"`.
pub open spec fn spec_vault_seed() -> Seq<u8> {
    seq![118u8, 97u8, 117u8, 108u8, 116u8]
}

/// Executable copy of the vault derivation seed, `b"vault"`.
pub fn vault_seed() -> (r: Vec<u8>)
    ensures
        r@ == spec_vault_seed(),
{
    let mut v: Vec<u8> = Vec::new();
    v.push(118);
    v.push(97);
    v.push(117);
    v.push(108);
    v.push(116);
    proof {
        assert(v@ =~= spec_vault_seed());
    }
    v
}

} // verus!
