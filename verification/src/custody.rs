//! Custody transfers: how tokens move between a balance that its holder
//! controls and a vault that the program controls.

use crate::address::Address;
use vstd::prelude::*;

verus! {

/// A balance of one mint, and the identity that may move tokens out of it.
#[derive(Clone, Copy, Debug, PartialEq, Eq)]
pub struct TokenAccount {
    pub authority: Address,
    pub amount: u64,
}

/// Why a transfer was refused.
#[derive(Clone, Copy, Debug, PartialEq, Eq, Structural)]
pub enum TransferError {
    /// The source holds less than the amount asked for.
    InsufficientBalance,
    /// The signer is not the authority of the source.
    Unauthorized,
}

/// What a transfer of `amount` from `from` to `to`, signed by `signer`,
/// comes to: the two accounts afterwards, or the reason for the refusal.
/// The signer is checked first, the balance second.
pub open spec fn transferred(
    from: TokenAccount,
    to: TokenAccount,
    amount: u64,
    signer: Address,
) -> Result<(TokenAccount, TokenAccount), TransferError> {
    if signer != from.authority {
        Err(TransferError::Unauthorized)
    } else if from.amount < amount {
        Err(TransferError::InsufficientBalance)
    } else {
        Ok(
            (
                TokenAccount { authority: from.authority, amount: (from.amount - amount) as u64 },
                TokenAccount { authority: to.authority, amount: (to.amount + amount) as u64 },
            ),
        )
    }
}

impl TokenAccount {
    /// An empty account under the given authority.
    pub fn new(authority: Address) -> (account: TokenAccount)
        ensures
            account == (TokenAccount { authority, amount: 0 }),
    {
        TokenAccount { authority, amount: 0 }
    }
}

/// Moves `amount` from `from` to `to` if `signer` is the authority of `from`
/// and `from` holds that much; otherwise changes nothing and says why.
///
/// The two accounts are of one mint, whose whole supply fits in 64 bits, so
/// their balances together do too.
pub fn transfer(
    from: &mut TokenAccount,
    to: &mut TokenAccount,
    amount: u64,
    signer: &Address,
) -> (outcome: Result<(), TransferError>)
    requires
        old(from).amount + old(to).amount <= u64::MAX,
    ensures
        match transferred(*old(from), *old(to), amount, *signer) {
            Ok((source, target)) => outcome is Ok && *final(from) == source && *final(to)
                == target,
            Err(reason) => outcome == Err::<(), TransferError>(reason) && *final(from) == *old(
                from,
            ) && *final(to) == *old(to),
        },
{
    if !signer.same(&from.authority) {
        return Err(TransferError::Unauthorized);
    }
    if from.amount < amount {
        return Err(TransferError::InsufficientBalance);
    }
    from.amount = from.amount - amount;
    to.amount = to.amount + amount;
    Ok(())
}

/// A transfer that succeeds moves exactly `amount`: the source loses it, the
/// target gains it, the two balances together stay what they were, and
/// neither authority changes.
pub proof fn law_transfer_conserves(
    from: TokenAccount,
    to: TokenAccount,
    amount: u64,
    signer: Address,
)
    requires
        from.amount + to.amount <= u64::MAX,
        transferred(from, to, amount, signer) is Ok,
    ensures
        ({
            let (source, target) = transferred(from, to, amount, signer)->Ok_0;
            &&& source.amount + target.amount == from.amount + to.amount
            &&& source.amount == from.amount - amount
            &&& target.amount == to.amount + amount
            &&& source.authority == from.authority
            &&& target.authority == to.authority
            &&& signer == from.authority
        }),
{
}

} // verus!
