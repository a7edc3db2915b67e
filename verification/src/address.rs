//! Program-derived addresses and well-known program ids, from the Solana crates.
use vstd::prelude::*;

use crate::pubkey::Pubkey;

verus! {

/// The address and bump seed that `solana_program::pubkey::Pubkey::try_find_program_address`
/// derives from the seeds and the program id, or `None` when it finds none.
/// It is a function of its arguments alone: for each bump seed from 255
/// down to 1, a hash of the seeds, the bump seed, the program id and a fixed
/// marker, until the hash is not a curve point; `None` when there are too
/// many seeds, a seed is longer than 32 bytes, or no bump seed works.
pub uninterp spec fn program_address(seeds: Seq<Seq<u8>>, program_id: Seq<u8>) -> Option<(Seq<u8>, u8)>;

/// Calls `solana_program::pubkey::Pubkey::try_find_program_address`. The
/// contract claims only that the result, taken by its view, is the one named
/// by `program_address` for these seeds and this program id.
#[verifier::external_body]
pub(crate) fn try_find_program_address(seeds: &Vec<Vec<u8>>, program_id: &Pubkey) -> (r: Option<(Pubkey, u8)>)
    ensures
        program_address(seeds.deep_view(), program_id@) == match r {
            Some((k, b)) => Some((k@, b)),
            None => None::<(Seq<u8>, u8)>,
        },
{
    let refs: Vec<&[u8]> = seeds.iter().map(|s| s.as_slice()).collect();
    let id = solana_program::pubkey::Pubkey::new_from_array(program_id.0);
    let found = solana_program::pubkey::Pubkey::try_find_program_address(&refs, &id);
    found.map(|(key, bump)| (Pubkey(key.to_bytes()), bump))
}

/// The address that `solana_program::pubkey::Pubkey::create_program_address`
/// makes of the seeds (the last one usually a bump seed) and the program id,
/// or `None` where it returns an error. It is a function of its arguments
/// alone: a hash of the seeds, the program id and a fixed marker, refused when
/// the hash is a curve point, when there are more than sixteen seeds, or when
/// a seed is longer than 32 bytes.
pub uninterp spec fn created_program_address(seeds: Seq<Seq<u8>>, program_id: Seq<u8>) -> Option<Seq<u8>>;

/// Calls `solana_program::pubkey::Pubkey::create_program_address`. The
/// contract claims only that the result, taken by its view, is the one named
/// by `created_program_address` for these seeds and this program id; an
/// error of the call becomes `None`.
#[verifier::external_body]
pub(crate) fn create_program_address(seeds: &Vec<Vec<u8>>, program_id: &Pubkey) -> (r: Option<Pubkey>)
    ensures
        created_program_address(seeds.deep_view(), program_id@) == match r {
            Some(k) => Some(k@),
            None => None::<Seq<u8>>,
        },
{
    let refs: Vec<&[u8]> = seeds.iter().map(|s| s.as_slice()).collect();
    let id = solana_program::pubkey::Pubkey::new_from_array(program_id.0);
    let made = solana_program::pubkey::Pubkey::create_program_address(&refs, &id);
    made.ok().map(|key| Pubkey(key.to_bytes()))
}

/// The bytes of the SPL token program's id, `TokenkegQfeZyiNwAJbNbGKPFXCWuBvf9Ss623VQ5DA`.
pub open spec fn spl_token_id() -> Seq<u8> {
    seq![
        6u8, 221, 246, 225, 215, 101, 161, 147, 217, 203, 225, 70, 206, 235, 121, 172,
        28, 180, 133, 237, 95, 91, 55, 145, 58, 140, 245, 133, 126, 255, 0, 169,
    ]
}

/// Calls `spl_token::id()`, the id that the crate declares with
/// `declare_id!("TokenkegQfeZyiNwAJbNbGKPFXCWuBvf9Ss623VQ5DA")`. The contract
/// claims that the result is that string's base58 decoding.
#[verifier::external_body]
pub(crate) fn token_program_id() -> (id: Pubkey)
    ensures
        id@ == spl_token_id(),
{
    Pubkey(spl_token::id().to_bytes())
}

} // verus!
