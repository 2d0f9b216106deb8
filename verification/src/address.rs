//! Derived addresses: where the continuation of a chain is kept.

use crate::codec::put_key;
use crate::pubkey::Pubkey;
use vstd::prelude::*;

verus! {

/// The address that the host derives from a list of seeds for a program, and
/// the bump seed it found for it; `None` where it finds none.
pub uninterp spec fn program_address(seeds: Seq<Seq<u8>>, program_id: Seq<u8>) -> Option<
    (Seq<u8>, u8),
>;

/// The byte strings that a list of seeds holds.
pub open spec fn seeds_view(seeds: &Vec<Vec<u8>>) -> Seq<Seq<u8>> {
    seeds@.map_values(|seed: Vec<u8>| seed@)
}

/// Calls `solana_program::pubkey::Pubkey::try_find_program_address`.
///
/// Nothing is proved of the derivation. The contract only gives its result a
/// name: the same seeds and program always derive the same address and bump.
#[verifier::external_body]
pub(crate) fn try_find_program_address(seeds: &Vec<Vec<u8>>, program_id: &Pubkey) -> (found:
    Option<(Pubkey, u8)>)
    ensures
        match found {
            Some((address, bump)) => program_address(seeds_view(seeds), program_id@) == Some(
                (address@, bump),
            ),
            None => program_address(seeds_view(seeds), program_id@).is_none(),
        },
{
    let parts: Vec<&[u8]> = seeds.iter().map(|seed| seed.as_slice()).collect();
    let program = solana_program::pubkey::Pubkey::new_from_array(program_id.bytes);
    match solana_program::pubkey::Pubkey::try_find_program_address(&parts, &program) {
        Some((address, bump)) => Some((Pubkey { bytes: address.to_bytes() }, bump)),
        None => None,
    }
}

/// The seed that marks every continuation address.
pub open spec fn spec_continuation_tag() -> Seq<u8> {
    seq![97u8, 110u8, 99u8, 104u8, 111u8, 114u8]
}

/// The seeds of the continuation that `owner` opens under the nonce `random`.
pub open spec fn continuation_seeds(owner: Pubkey, random: Pubkey) -> Seq<Seq<u8>> {
    seq![spec_continuation_tag(), owner@, random@]
}

/// The address and bump of the continuation that `owner` opens under the
/// nonce `random` in the program `program_id`.
pub open spec fn continuation_address(program_id: Pubkey, owner: Pubkey, random: Pubkey) -> Option<
    (Seq<u8>, u8),
> {
    program_address(continuation_seeds(owner, random), program_id@)
}

/// Derives the address of the continuation that `owner` opens under the nonce
/// `random`.
pub fn find_continuation_address(program_id: &Pubkey, owner: &Pubkey, random: &Pubkey) -> (found:
    Option<(Pubkey, u8)>)
    ensures
        match found {
            Some((address, bump)) => continuation_address(*program_id, *owner, *random) == Some(
                (address@, bump),
            ),
            None => continuation_address(*program_id, *owner, *random).is_none(),
        },
{
    let mut tag: Vec<u8> = Vec::new();
    tag.push(97u8);
    tag.push(110u8);
    tag.push(99u8);
    tag.push(104u8);
    tag.push(111u8);
    tag.push(114u8);
    let mut owner_seed: Vec<u8> = Vec::new();
    put_key(&mut owner_seed, owner);
    let mut random_seed: Vec<u8> = Vec::new();
    put_key(&mut random_seed, random);
    let mut seeds: Vec<Vec<u8>> = Vec::new();
    seeds.push(tag);
    seeds.push(owner_seed);
    seeds.push(random_seed);
    proof {
        assert(seeds[0]@ =~= spec_continuation_tag());
        assert(seeds[1]@ =~= owner@);
        assert(seeds[2]@ =~= random@);
        assert(seeds_view(&seeds) =~= continuation_seeds(*owner, *random));
    }
    try_find_program_address(&seeds, program_id)
}

} // verus!
