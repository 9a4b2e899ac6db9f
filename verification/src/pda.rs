//! Program-derived addresses: identities computed from seed material and the
//! identity of the program that owns them.

use vstd::prelude::*;
use anchor_lang::solana_program::pubkey::Pubkey;
use crate::address::Address;

verus! {

/// The address that a program derives from a list of seeds, with the bump
/// seed that completes the derivation; `None` where the seeds derive no
/// address.
///
/// The derivation hashes the seeds, the bump and the program's identity, and
/// searches the bump downwards from 255 for the first hash that is no point
/// of the signature curve, so that no private key can belong to the address.
pub uninterp spec fn program_address(seeds: Seq<Seq<u8>>, program_id: Seq<u8>) -> Option<
    (Seq<u8>, u8),
>;

/// The seeds of a derivation as sequences of bytes.
pub open spec fn seeds_view(seeds: Seq<Vec<u8>>) -> Seq<Seq<u8>> {
    Seq::new(seeds.len(), |i: int| seeds[i]@)
}

/// The outcome of a derivation as sequences of bytes.
pub open spec fn derived_view(derived: Option<(Address, u8)>) -> Option<(Seq<u8>, u8)> {
    match derived {
        Some((address, bump)) => Some((address@, bump)),
        None => None,
    }
}

/// Whether a derivation came out as the address `key`.
pub open spec fn derives(derived: Option<(Seq<u8>, u8)>, key: Address) -> bool {
    derived matches Some(found) && found.0 == key@
}

/// The bump seed of a derivation that gave an address.
pub open spec fn bump_of(derived: Option<(Seq<u8>, u8)>) -> u8
    recommends
        derived is Some,
{
    match derived {
        Some(found) => found.1,
        None => 0,
    }
}

/// Calls `Pubkey::try_find_program_address` of `solana_program`.
///
/// The contract claims that the outcome is a function of the seeds and of
/// the program's identity alone, and names it [`program_address`]. Nothing
/// is claimed about which address comes out.
#[verifier::external_body]
pub(crate) fn try_find_program_address(seeds: &Vec<Vec<u8>>, program_id: &Address) -> (r: Option<
    (Address, u8),
>)
    ensures
        derived_view(r) == program_address(seeds_view(seeds@), program_id@),
{
    let parts: Vec<&[u8]> = seeds.iter().map(|seed| seed.as_slice()).collect();
    let program = Pubkey::new_from_array(program_id.bytes);
    match Pubkey::try_find_program_address(&parts, &program) {
        Some((key, bump)) => Some((Address { bytes: key.to_bytes() }, bump)),
        None => None,
    }
}

/// Decides whether the address `key` is the one that the derivation gave.
pub fn is_derived(derived: &Option<(Address, u8)>, key: &Address) -> (r: bool)
    ensures
        r == derives(derived_view(*derived), *key),
{
    match derived {
        Some((address, _)) => {
            proof {
                crate::address::lemma_address_view_injective(*address, *key);
            }
            *address == *key
        },
        None => false,
    }
}

} // verus!
