//! The staking state machine on one holding: a record is created once, and
//! from then on the holding goes from unstaked to staked and back, each step
//! moving the staked tokens between the wallet and the vault.

use crate::address::Address;
use crate::custody::{transfer, TokenAccount};
use crate::errors::AppError;
use crate::state::{Holding, StakeRecord};
use vstd::prelude::*;

verus! {

/// The holding after its record is created for `owner`: the same balances
/// and a fresh record. Refused where a record exists already.
pub open spec fn after_initialize(holding: Holding, owner: Address) -> Result<Holding, AppError> {
    if holding.record is Some {
        Err(AppError::AlreadyInitialized)
    } else {
        Ok(
            Holding {
                wallet: holding.wallet,
                vault: holding.vault,
                record: Some(StakeRecord::fresh(owner)),
            },
        )
    }
}

/// The holding after `amount` is staked: the wallet has that much less, the
/// vault that much more, and the record holds the amount. Refused, in this
/// order: without a record; while a deposit is held; for no tokens, or for
/// more than the wallet has.
pub open spec fn after_stake(holding: Holding, amount: u64) -> Result<Holding, AppError> {
    match holding.record {
        None => Err(AppError::NotFound),
        Some(record) => if record.is_staked {
            Err(AppError::IsStaked)
        } else if amount == 0 || holding.wallet.amount < amount {
            Err(AppError::NoToken)
        } else {
            Ok(
                Holding {
                    wallet: TokenAccount {
                        authority: holding.wallet.authority,
                        amount: (holding.wallet.amount - amount) as u64,
                    },
                    vault: TokenAccount {
                        authority: holding.vault.authority,
                        amount: (holding.vault.amount + amount) as u64,
                    },
                    record: Some(StakeRecord { owner: record.owner, is_staked: true, amount }),
                },
            )
        },
    }
}

/// The holding after the whole deposit is withdrawn: the wallet has the
/// recorded amount back, the vault has lost it, and the record is reset.
/// Refused without a record, and while nothing is staked.
pub open spec fn after_unstake(holding: Holding) -> Result<Holding, AppError> {
    match holding.record {
        None => Err(AppError::NotFound),
        Some(record) => if !record.is_staked {
            Err(AppError::NotStaked)
        } else {
            Ok(
                Holding {
                    wallet: TokenAccount {
                        authority: holding.wallet.authority,
                        amount: (holding.wallet.amount + record.amount) as u64,
                    },
                    vault: TokenAccount {
                        authority: holding.vault.authority,
                        amount: (holding.vault.amount - record.amount) as u64,
                    },
                    record: Some(StakeRecord { owner: record.owner, is_staked: false, amount: 0 }),
                },
            )
        },
    }
}

/// What a step that should come to `expected` did to a holding: on success
/// the holding is the expected one, on refusal it is untouched and the
/// reason is reported.
pub open spec fn stepped(
    before: Holding,
    after: Holding,
    expected: Result<Holding, AppError>,
    outcome: Result<(), AppError>,
) -> bool {
    match expected {
        Ok(next) => outcome is Ok && after == next,
        Err(reason) => outcome == Err::<(), AppError>(reason) && after == before,
    }
}

impl Holding {
    /// Creates the stake record of `owner` in this holding.
    pub fn apply_initialize(&mut self, owner: &Address) -> (outcome: Result<(), AppError>)
        requires
            old(self).wf(*owner, old(self).vault.authority),
        ensures
            stepped(*old(self), *final(self), after_initialize(*old(self), *owner), outcome),
            final(self).wf(*owner, old(self).vault.authority),
    {
        if self.record.is_some() {
            return Err(AppError::AlreadyInitialized);
        }
        self.record = Some(StakeRecord::new(*owner));
        Ok(())
    }

    /// Stakes `amount`: the holder signs the transfer from the wallet into
    /// the vault, and the record takes the amount.
    pub fn apply_stake(&mut self, owner: &Address, amount: u64) -> (outcome: Result<(), AppError>)
        requires
            old(self).wf(*owner, old(self).vault.authority),
        ensures
            stepped(*old(self), *final(self), after_stake(*old(self), amount), outcome),
            final(self).wf(*owner, old(self).vault.authority),
    {
        let record = match self.record {
            None => {
                return Err(AppError::NotFound);
            },
            Some(record) => record,
        };
        if record.is_staked {
            return Err(AppError::IsStaked);
        }
        if amount == 0 {
            return Err(AppError::NoToken);
        }
        match transfer(&mut self.wallet, &mut self.vault, amount, owner) {
            Ok(()) => {
                self.record = Some(StakeRecord { owner: record.owner, is_staked: true, amount });
                Ok(())
            },
            Err(_) => Err(AppError::NoToken),
        }
    }

    /// Unstakes: the program, as `authority`, signs the transfer of the
    /// recorded amount from the vault back to the wallet, and the record is
    /// reset. This is the one step that takes tokens out of a vault.
    pub fn apply_unstake(&mut self, authority: &Address) -> (outcome: Result<(), AppError>)
        requires
            old(self).wf(old(self).wallet.authority, *authority),
        ensures
            stepped(*old(self), *final(self), after_unstake(*old(self)), outcome),
            final(self).wf(old(self).wallet.authority, *authority),
    {
        let record = match self.record {
            None => {
                return Err(AppError::NotFound);
            },
            Some(record) => record,
        };
        if !record.is_staked {
            return Err(AppError::NotStaked);
        }
        let released = transfer(&mut self.vault, &mut self.wallet, record.amount, authority);
        assert(released is Ok);
        self.record = Some(StakeRecord { owner: record.owner, is_staked: false, amount: 0 });
        Ok(())
    }
}

} // verus!
