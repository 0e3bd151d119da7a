//! Where a vault lives: an address derived from the program, the holder and
//! the mint, so that each holder has one vault per mint and nobody has to
//! keep a table of them.

use crate::address::Address;
use anchor_lang::prelude::Pubkey;
use vstd::prelude::*;

verus! {

/// The program-derived address that `Pubkey::try_find_program_address`
/// returns for the given seeds and program, with its bump seed; `None` where
/// it finds none.
pub uninterp spec fn program_address(seeds: Seq<Seq<u8>>, program: Seq<u8>) -> Option<
    (Seq<u8>, u8),
>;

/// Calls `Pubkey::try_find_program_address` with the two seeds, in this
/// order, and the program. Trusted: the result is the address and bump seed
/// that the search yields for exactly these bytes, and the same bytes always
/// yield the same result.
#[verifier::external_body]
fn find_program_address(first: &[u8; 32], second: &[u8; 32], program: &[u8; 32]) -> (found: Option<
    ([u8; 32], u8),
>)
    ensures
        match found {
            Some((address, bump)) => program_address(seq![first@, second@], program@) == Some(
                (address@, bump),
            ),
            None => program_address(seq![first@, second@], program@) is None,
        },
{
    let program_id = Pubkey::new_from_array(*program);
    match Pubkey::try_find_program_address(&[&first[..], &second[..]], &program_id) {
        Some((address, bump)) => Some((address.to_bytes(), bump)),
        None => None,
    }
}

/// The address of a vault and the bump seed that completes its derivation.
#[derive(Clone, Copy, Debug, PartialEq, Eq)]
pub struct VaultAddress {
    pub address: Address,
    pub bump: u8,
}

/// The seeds of a holder's vault for a mint: the holder, then the mint.
pub open spec fn vault_seeds(owner: Seq<u8>, mint: Seq<u8>) -> Seq<Seq<u8>> {
    seq![owner, mint]
}

/// Whether `vault` is what a derivation that ended in `found` designates.
pub open spec fn designates(found: Option<(Seq<u8>, u8)>, vault: Option<VaultAddress>) -> bool {
    match vault {
        Some(v) => found == Some((v.address@, v.bump)),
        None => found is None,
    }
}

/// Packs the outcome of a derivation into a vault address.
pub fn vault_from(found: Option<([u8; 32], u8)>) -> (vault: Option<VaultAddress>)
    ensures
        match found {
            Some((bytes, bump)) => vault == Some(
                (VaultAddress { address: Address { bytes }, bump }),
            ),
            None => vault is None,
        },
{
    match found {
        Some((bytes, bump)) => Some(VaultAddress { address: Address::new(bytes), bump }),
        None => None,
    }
}

/// The vault of `owner` for `mint` under `program`: the address derived from
/// these three identities and from nothing else. `None` where the derivation
/// finds no address.
pub fn vault_address(program: &Address, owner: &Address, mint: &Address) -> (vault: Option<
    VaultAddress,
>)
    ensures
        designates(program_address(vault_seeds(owner@, mint@), program@), vault),
{
    let found = find_program_address(&owner.bytes, &mint.bytes, &program.bytes);
    vault_from(found)
}

} // verus!
