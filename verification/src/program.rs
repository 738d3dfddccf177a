//! The program's own address, and the authority address that signs for a
//! multi-sig, derived from the multi-sig's address.

use vstd::prelude::*;
use crate::key::Pubkey;

verus! {

/// The bytes of this program's address.
pub open spec fn program_id_bytes() -> Seq<u8> {
    seq![25u8, 30, 241, 116, 36, 86, 118, 110, 89, 222, 190, 245, 96, 83, 35, 40, 120, 248, 172, 168, 72, 81, 194, 200, 164, 234, 125, 255, 98, 181, 38, 87]
}

/// This program's address.
pub fn program_id() -> (id: Pubkey)
    ensures
        id.bytes@ == program_id_bytes(),
{
    let id = Pubkey { bytes: [25, 30, 241, 116, 36, 86, 118, 110, 89, 222, 190, 245, 96, 83, 35, 40, 120, 248, 172, 168, 72, 81, 194, 200, 164, 234, 125, 255, 98, 181, 38, 87] };
    proof {
        assert(id.bytes@ =~= program_id_bytes());
    }
    id
}

/// The seed tag of authority addresses: the bytes of "authority".
pub open spec fn authority_tag() -> Seq<u8> {
    seq![97u8, 117, 116, 104, 111, 114, 105, 116, 121]
}

/// The views of a list of byte strings.
pub open spec fn seeds_view(seeds: Seq<Vec<u8>>) -> Seq<Seq<u8>> {
    seeds.map_values(|s: Vec<u8>| s@)
}

/// An address found for some seeds, by its view.
pub open spec fn found_view(r: Option<(Pubkey, u8)>) -> Option<(Seq<u8>, u8)> {
    match r {
        Some((k, bump)) => Some((k.bytes@, bump)),
        None => None,
    }
}

/// The program-derived address, with its bump seed, that the runtime finds for
/// these seeds and this program; `None` when no bump seed gives one.
pub uninterp spec fn program_address(seeds: Seq<Seq<u8>>, program_id: Seq<u8>) -> Option<(Seq<u8>, u8)>;

/// Calls `Pubkey::try_find_program_address` of the Solana runtime library.
///
/// Claimed: the result is a function of the seeds and the program id alone (the
/// search hashes them with each bump seed from 255 down and keeps the first
/// address off the curve). Nothing more is said of which address that is.
#[verifier::external_body]
fn try_find_program_address(seeds: &Vec<Vec<u8>>, program_id: &Pubkey) -> (r: Option<(Pubkey, u8)>)
    ensures
        found_view(r) == program_address(seeds_view(seeds@), program_id.bytes@),
{
    let seed_refs: Vec<&[u8]> = seeds.iter().map(|s| s.as_slice()).collect();
    let program = anchor_lang::solana_program::pubkey::Pubkey::new_from_array(program_id.bytes);
    match anchor_lang::solana_program::pubkey::Pubkey::try_find_program_address(&seed_refs, &program) {
        Some((address, bump)) => Some((Pubkey { bytes: address.to_bytes() }, bump)),
        None => None,
    }
}

/// The seeds of the authority address of a multi-sig: the tag and the
/// multi-sig's address.
pub fn authority_seeds(multi_sig: &Pubkey) -> (seeds: Vec<Vec<u8>>)
    ensures
        seeds_view(seeds@) == seq![authority_tag(), multi_sig.bytes@],
{
    let tag: Vec<u8> = vec![97u8, 117, 116, 104, 111, 114, 105, 116, 121];
    let mut key: Vec<u8> = Vec::new();
    let mut i: usize = 0;
    while i < 32
        invariant
            0 <= i <= 32,
            key@ =~= multi_sig.bytes@.take(i as int),
        decreases 32 - i,
    {
        key.push(multi_sig.bytes[i]);
        i = i + 1;
    }
    proof {
        assert(key@ =~= multi_sig.bytes@);
        assert(tag@ =~= authority_tag());
    }
    let seeds = vec![tag, key];
    proof {
        assert(seeds_view(seeds@) =~= seq![authority_tag(), multi_sig.bytes@]);
    }
    seeds
}

/// The authority address of a multi-sig and its bump seed.
pub fn find_authority(multi_sig: &Pubkey) -> (r: Option<(Pubkey, u8)>)
    ensures
        found_view(r) == program_address(seq![authority_tag(), multi_sig.bytes@], program_id_bytes()),
{
    let seeds = authority_seeds(multi_sig);
    let id = program_id();
    try_find_program_address(&seeds, &id)
}

} // verus!
