use vstd::prelude::*;

pub mod account;
pub mod address;
pub mod anchor;
pub mod anchor_vault;
pub mod codec;
pub mod cpi;
pub mod errors;
pub mod instruction;
pub mod ledger;
pub mod processor;
pub mod pubkey;
pub mod vovo_solana;
pub mod vovo_vault;

verus! {

/// Prefix used in PDA derivations to avoid collisions with other programs.
pub const PREFIX: &'static str = "vovovault";

/// The bytes of `PREFIX`.
pub open spec fn prefix_bytes() -> Seq<u8> {
    seq![118u8, 111, 118, 111, 118, 97, 117, 108, 116]
}

/// The bytes of `PREFIX`, as a seed.
pub fn prefix_seed() -> (s: Vec<u8>)
    ensures
        s@ == prefix_bytes(),
{
    let s: Vec<u8> = vec![118u8, 111, 118, 111, 118, 97, 117, 108, 116];
    assert(s@ =~= prefix_bytes());
    s
}

/// The prefix seed's bytes are the characters of `PREFIX`, one byte each.
pub proof fn lemma_prefix_bytes_spell_prefix()
    ensures
        prefix_bytes().len() == PREFIX@.len(),
        forall|i: int| 0 <= i < prefix_bytes().len() ==> prefix_bytes()[i] == #[trigger] PREFIX@[i] as u8,
{
    reveal_strlit("vovovault");
}

} // verus!
