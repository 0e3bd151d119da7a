//! The stake record of one holder for one mint, and the holding it belongs
//! to: the holder's own balance, the vault, and the record between them.

use crate::address::Address;
use crate::custody::TokenAccount;
use vstd::prelude::*;

verus! {

/// What the program remembers of one holder's deposit.
#[derive(Clone, Copy, Debug, PartialEq, Eq)]
pub struct StakeRecord {
    /// The depositing principal; never changes once the record exists.
    pub owner: Address,
    /// True from a successful stake until the next successful unstake.
    pub is_staked: bool,
    /// The tokens in custody; zero while nothing is staked.
    pub amount: u64,
}

impl StakeRecord {
    /// A record holds tokens exactly while it is marked as staked.
    pub open spec fn wf(self) -> bool {
        self.amount > 0 <==> self.is_staked
    }

    /// The record of a holder who has staked nothing yet.
    pub open spec fn fresh(owner: Address) -> StakeRecord {
        StakeRecord { owner, is_staked: false, amount: 0 }
    }

    /// Creates the record of a holder who has staked nothing yet.
    pub fn new(owner: Address) -> (record: StakeRecord)
        ensures
            record == StakeRecord::fresh(owner),
            record.wf(),
    {
        StakeRecord { owner, is_staked: false, amount: 0 }
    }
}

/// Everything the ledger keeps for one holder and one mint.
#[derive(Clone, Copy, Debug, PartialEq, Eq)]
pub struct Holding {
    /// The holder's own balance, which the holder signs for.
    pub wallet: TokenAccount,
    /// The vault, which only the program signs for.
    pub vault: TokenAccount,
    /// The stake record, once it has been created.
    pub record: Option<StakeRecord>,
}

impl Holding {
    /// The holding of a holder who has neither tokens nor a record, with a
    /// vault that `authority` signs for.
    pub open spec fn empty(owner: Address, authority: Address) -> Holding {
        Holding {
            wallet: TokenAccount { authority: owner, amount: 0 },
            vault: TokenAccount { authority, amount: 0 },
            record: None,
        }
    }

    /// The custody invariant of one holding. The holder signs for the
    /// wallet, and `authority`, the identity under which the program acts,
    /// for the vault; the vault holds exactly what the record says, and
    /// nothing where there is no record; the record is the holder's and
    /// holds tokens exactly while it is marked as staked; the two balances
    /// together fit in 64 bits.
    pub open spec fn wf(self, owner: Address, authority: Address) -> bool {
        &&& self.wallet.authority == owner
        &&& self.vault.authority == authority
        &&& self.wallet.amount + self.vault.amount <= u64::MAX
        &&& match self.record {
            None => self.vault.amount == 0,
            Some(record) => record.owner == owner && record.wf() && self.vault.amount
                == record.amount,
        }
    }

    /// Whether this holding meets the custody invariant for `owner` and
    /// `authority`.
    pub fn check(&self, owner: &Address, authority: &Address) -> (valid: bool)
        ensures
            valid == self.wf(*owner, *authority),
    {
        if !self.wallet.authority.same(owner) || !self.vault.authority.same(authority) {
            return false;
        }
        if self.wallet.amount > u64::MAX - self.vault.amount {
            return false;
        }
        match self.record {
            None => self.vault.amount == 0,
            Some(record) => record.owner.same(owner) && (record.amount > 0) == record.is_staked
                && self.vault.amount == record.amount,
        }
    }

    /// The tokens of this holding, wherever they are.
    pub open spec fn total(self) -> int {
        self.wallet.amount + self.vault.amount
    }

    /// The amount that the record holds in custody; zero without a record.
    pub open spec fn staked_amount(self) -> int {
        match self.record {
            None => 0,
            Some(record) => record.amount as int,
        }
    }
}

} // verus!
