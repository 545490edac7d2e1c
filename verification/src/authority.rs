//! The program's custody authority: the address, derived from the program's
//! identity and a fixed seed, that owns the temporary token account while a
//! swap is open. No private key belongs to it, so only the program can move
//! what it holds.

use vstd::prelude::*;
use solana_program::pubkey::Pubkey;
use crate::address::Address;

verus! {

/// The custody authority of a program: its address and the bump seed that
/// the derivation found for it.
#[derive(Debug, Copy, Clone, PartialEq, Eq)]
pub struct Authority {
    pub address: Address,
    pub bump: u8,
}

/// What the ledger SDK's `Pubkey::try_find_program_address` returns for the
/// single seed `seed` and the program `program_id`: the derived address with
/// its bump seed, or nothing where no bump seed gives an address.
pub uninterp spec fn spec_program_address(seed: Seq<u8>, program_id: Seq<u8>) -> Option<
    (Seq<u8>, u8),
>;

/// The seed of the custody authority: the ASCII bytes of `escrow`.
pub open spec fn spec_escrow_seed() -> Seq<u8> {
    seq![101u8, 115u8, 99u8, 114u8, 111u8, 119u8]
}

/// Calls `Pubkey::try_find_program_address` of the ledger SDK with the one
/// seed `seed`. The derivation hashes the seed, a bump seed and the program's
/// address, and depends on nothing else; the contract gives its result the
/// name `spec_program_address` and claims no more of it.
#[verifier::external_body]
fn try_find_program_address(seed: &[u8], program_id: &Address) -> (r: Option<(Address, u8)>)
    ensures
        r matches Some((address, bump)) ==> spec_program_address(seed@, program_id@) == Some(
            (address@, bump),
        ),
        r is None ==> spec_program_address(seed@, program_id@) is None,
{
    let id = Pubkey::new_from_array(program_id.bytes);
    match Pubkey::try_find_program_address(&[seed], &id) {
        Some((key, bump)) => Some((Address { bytes: key.to_bytes() }, bump)),
        None => None,
    }
}

/// Derives the custody authority of the program `program_id`.
pub fn find_escrow_authority(program_id: &Address) -> (r: Option<Authority>)
    ensures
        r matches Some(authority) ==> spec_program_address(spec_escrow_seed(), program_id@)
            == Some((authority.address@, authority.bump)),
        r is None ==> spec_program_address(spec_escrow_seed(), program_id@) is None,
{
    let seed: [u8; 6] = [101, 115, 99, 114, 111, 119];
    assert(seed@ =~= spec_escrow_seed());
    match try_find_program_address(seed.as_slice(), program_id) {
        Some((address, bump)) => Some(Authority { address, bump }),
        None => None,
    }
}

} // verus!
