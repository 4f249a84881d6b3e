//! Derived addresses: where the treasury and its configuration live.
//!
//! An address is derived from a seed and the program's own identity,
//! together with a bump byte chosen so that no private key belongs to the
//! address. Whoever derives the same pair again proves authority over it.

use vstd::prelude::*;
use crate::pubkey::Pubkey;

verus! {

/// The seed of the treasury address: the ASCII bytes of `treasury`.
pub const TREASURY_SEED: [u8; 8] = [116, 114, 101, 97, 115, 117, 114, 121];

/// The seed of the configuration address: the ASCII bytes of `config`.
pub const CONFIG_SEED: [u8; 6] = [99, 111, 110, 102, 105, 103];

/// An address with the bump byte that was found for it.
#[derive(Clone, Copy, Debug, PartialEq, Eq)]
pub struct DerivedAddress {
    pub address: Pubkey,
    pub bump: u8,
}

/// The address and bump byte that the ledger derives from one seed and a
/// program identity, or `None` where no bump byte gives an address. The
/// derivation hashes the seed, a candidate bump byte and the program
/// identity and tests the digest against the curve; it is not spelled out
/// here.
pub uninterp spec fn spec_find_program_address(seed: Seq<u8>, program_id: Seq<u8>) -> Option<
    (Seq<u8>, u8),
>;

/// A derivation result as plain values.
pub open spec fn derived_view(found: Option<DerivedAddress>) -> Option<(Seq<u8>, u8)> {
    match found {
        Some(d) => Some((d.address@, d.bump)),
        None => None,
    }
}

/// Whether a derivation gave the address of `key`.
pub open spec fn derives(found: Option<(Seq<u8>, u8)>, key: Pubkey) -> bool {
    match found {
        Some((address, _)) => address == key@,
        None => false,
    }
}

/// The bump byte that a derivation found.
pub open spec fn bump_of(found: Option<(Seq<u8>, u8)>) -> u8 {
    match found {
        Some((_, bump)) => bump,
        None => 0,
    }
}

/// The treasury address of a program, with its bump byte.
pub open spec fn spec_treasury_address(program_id: Pubkey) -> Option<(Seq<u8>, u8)> {
    spec_find_program_address(TREASURY_SEED@, program_id@)
}

/// The configuration address of a program, with its bump byte.
pub open spec fn spec_config_address(program_id: Pubkey) -> Option<(Seq<u8>, u8)> {
    spec_find_program_address(CONFIG_SEED@, program_id@)
}

/// Calls `solana_program::pubkey::Pubkey::try_find_program_address` with the
/// one seed. Trusted: the result is a function of the seed and the program
/// identity alone, which is what the name
/// [`spec_find_program_address`] stands for. The outside function searches
/// the bump bytes from 255 down to 1 and returns `None` when none fits; it
/// does not panic.
#[verifier::external_body]
fn try_find_program_address(seed: &[u8], program_id: &Pubkey) -> (found: Option<DerivedAddress>)
    ensures
        derived_view(found) == spec_find_program_address(seed@, program_id@),
{
    let id = solana_program::pubkey::Pubkey::new_from_array(program_id.bytes);
    solana_program::pubkey::Pubkey::try_find_program_address(&[seed], &id).map(
        |(address, bump)| DerivedAddress { address: Pubkey { bytes: address.to_bytes() }, bump },
    )
}

/// Derives the address that belongs to `seed` under `program_id`. The
/// result depends on the two arguments alone: deriving again gives the same
/// address and the same bump byte.
pub fn derive_address(seed: &[u8], program_id: &Pubkey) -> (found: Option<DerivedAddress>)
    ensures
        derived_view(found) == spec_find_program_address(seed@, program_id@),
{
    try_find_program_address(seed, program_id)
}

/// Derives the treasury address of `program_id`.
pub fn treasury_address(program_id: &Pubkey) -> (found: Option<DerivedAddress>)
    ensures
        derived_view(found) == spec_treasury_address(*program_id),
{
    try_find_program_address(&TREASURY_SEED, program_id)
}

/// Derives the configuration address of `program_id`.
pub fn config_address(program_id: &Pubkey) -> (found: Option<DerivedAddress>)
    ensures
        derived_view(found) == spec_config_address(*program_id),
{
    try_find_program_address(&CONFIG_SEED, program_id)
}

} // verus!
