//! The ledger: for every holder and mint one holding, kept under the custody
//! invariant. Holdings are read freely; they are written only by the staking
//! operations of this crate and by `credit`.

use crate::address::Address;
use crate::custody::TokenAccount;
use crate::state::Holding;
use vstd::prelude::*;

verus! {

/// One stored holding with the pair that it is stored under.
#[derive(Clone, Copy, Debug)]
struct Entry {
    owner: Address,
    mint: Address,
    holding: Holding,
}

/// The holdings of all holders under one program.
#[derive(Debug)]
pub struct Ledger {
    program: Address,
    entries: Vec<Entry>,
}

/// Whether `entry` is the one kept for `owner` and `mint`.
spec fn stored_under(entry: Entry, owner: Address, mint: Address) -> bool {
    entry.owner == owner && entry.mint == mint
}

/// That `after` keeps the program of `before` and every holding of it but
/// the one of `owner` for `mint`.
pub open spec fn changed_only_at(before: Ledger, after: Ledger, owner: Address, mint: Address) -> bool {
    &&& after.program() == before.program()
    &&& forall|o: Address, m: Address|
        !(o == owner && m == mint) ==> #[trigger] after.holding(o, m) == before.holding(o, m)
}

/// The holding after `amount` arrives in its wallet; `None` where the tokens
/// of the holding would then no longer fit in 64 bits.
pub open spec fn after_credit(holding: Holding, amount: u64) -> Option<Holding> {
    if holding.total() + amount > u64::MAX {
        None
    } else {
        Some(
            Holding {
                wallet: TokenAccount {
                    authority: holding.wallet.authority,
                    amount: (holding.wallet.amount + amount) as u64,
                },
                vault: holding.vault,
                record: holding.record,
            },
        )
    }
}

impl Ledger {
    /// The program that owns the vaults of this ledger.
    pub closed spec fn program(&self) -> Address {
        self.program
    }

    /// Whether anything is stored for the pair.
    spec fn has(&self, owner: Address, mint: Address) -> bool {
        exists|i: int| 0 <= i < self.entries@.len() && stored_under(self.entries@[i], owner, mint)
    }

    /// Where the holding of the pair is stored, if it is.
    spec fn slot(&self, owner: Address, mint: Address) -> int {
        choose|i: int| 0 <= i < self.entries@.len() && stored_under(self.entries@[i], owner, mint)
    }

    /// The holding of `owner` for `mint`: the stored one, or the empty
    /// holding where nothing was ever stored for the pair.
    pub closed spec fn holding(&self, owner: Address, mint: Address) -> Holding {
        if self.has(owner, mint) {
            self.entries@[self.slot(owner, mint)].holding
        } else {
            Holding::empty(owner, self.program)
        }
    }

    /// Every stored holding meets the custody invariant for its pair, and no
    /// pair is stored twice.
    pub closed spec fn wf(&self) -> bool {
        &&& forall|i: int|
            0 <= i < self.entries@.len() ==> (#[trigger] self.entries@[i]).holding.wf(
                self.entries@[i].owner,
                self.program,
            )
        &&& forall|i: int, j: int|
            0 <= i < j < self.entries@.len() ==> !stored_under(
                #[trigger] self.entries@[j],
                (#[trigger] self.entries@[i]).owner,
                self.entries@[i].mint,
            )
    }

    /// In a well-formed ledger every holding meets the custody invariant:
    /// the vault of a pair holds what its record says, and a record holds
    /// tokens exactly while it is marked as staked.
    pub proof fn lemma_holding_wf(&self, owner: Address, mint: Address)
        requires
            self.wf(),
        ensures
            self.holding(owner, mint).wf(owner, self.program()),
    {
        if self.has(owner, mint) {
            let i = self.slot(owner, mint);
            assert(self.entries@[i].holding.wf(self.entries@[i].owner, self.program));
        }
    }

    /// An entry stored under a pair is the only one, so it is the pair's
    /// slot and holds the pair's holding.
    proof fn lemma_slot(&self, i: int, owner: Address, mint: Address)
        requires
            self.wf(),
            0 <= i < self.entries@.len(),
            stored_under(self.entries@[i], owner, mint),
        ensures
            self.has(owner, mint),
            self.slot(owner, mint) == i,
            self.holding(owner, mint) == self.entries@[i].holding,
    {
        let j = self.slot(owner, mint);
        if i < j {
            assert(!stored_under(self.entries@[j], self.entries@[i].owner, self.entries@[i].mint));
        } else if j < i {
            assert(!stored_under(self.entries@[i], self.entries@[j].owner, self.entries@[j].mint));
        }
    }

    /// A ledger under `program` in which nobody holds anything.
    pub fn new(program: Address) -> (ledger: Ledger)
        ensures
            ledger.wf(),
            ledger.program() == program,
            forall|o: Address, m: Address| #[trigger]
                ledger.holding(o, m) == Holding::empty(o, program),
    {
        Ledger { program, entries: Vec::new() }
    }

    /// The program that owns the vaults of this ledger.
    pub fn program_id(&self) -> (program: Address)
        ensures
            program == self.program(),
    {
        self.program
    }

    /// Finds the slot of the pair, if anything is stored for it.
    fn locate(&self, owner: &Address, mint: &Address) -> (found: Option<usize>)
        requires
            self.wf(),
        ensures
            match found {
                Some(i) => i < self.entries@.len() && stored_under(
                    self.entries@[i as int],
                    *owner,
                    *mint,
                ) && self.has(*owner, *mint) && self.slot(*owner, *mint) == i,
                None => !self.has(*owner, *mint),
            },
    {
        let mut i: usize = 0;
        while i < self.entries.len()
            invariant
                self.wf(),
                0 <= i <= self.entries@.len(),
                forall|j: int| 0 <= j < i ==> !stored_under(self.entries@[j], *owner, *mint),
            decreases self.entries@.len() - i,
        {
            if self.entries[i].owner.same(owner) && self.entries[i].mint.same(mint) {
                proof {
                    self.lemma_slot(i as int, *owner, *mint);
                }
                return Some(i);
            }
            i = i + 1;
        }
        None
    }

    /// Reads the holding of `owner` for `mint`.
    pub fn load(&self, owner: &Address, mint: &Address) -> (holding: Holding)
        requires
            self.wf(),
        ensures
            holding == self.holding(*owner, *mint),
            holding.wf(*owner, self.program()),
    {
        proof {
            self.lemma_holding_wf(*owner, *mint);
        }
        match self.locate(owner, mint) {
            Some(i) => self.entries[i].holding,
            None => Holding {
                wallet: TokenAccount::new(*owner),
                vault: TokenAccount::new(self.program),
                record: None,
            },
        }
    }

    /// Writes the holding of `owner` for `mint` in one step, and touches no
    /// other holding.
    pub(crate) fn store(&mut self, owner: &Address, mint: &Address, holding: Holding)
        requires
            old(self).wf(),
            holding.wf(*owner, old(self).program()),
        ensures
            final(self).wf(),
            final(self).holding(*owner, *mint) == holding,
            changed_only_at(*old(self), *final(self), *owner, *mint),
    {
        let entry = Entry { owner: *owner, mint: *mint, holding };
        let ghost before = *self;
        match self.locate(owner, mint) {
            Some(i) => {
                self.entries[i] = entry;
                proof {
                    let after = *self;
                    after.lemma_slot(i as int, *owner, *mint);
                    assert forall|o: Address, m: Address|
                        !(o == *owner && m == *mint) implies #[trigger] after.holding(o, m)
                        == before.holding(o, m) by {
                        if before.has(o, m) {
                            let k = before.slot(o, m);
                            assert(k != i);
                            after.lemma_slot(k, o, m);
                        } else if after.has(o, m) {
                            let k = after.slot(o, m);
                            assert(stored_under(before.entries@[k], o, m));
                        }
                    }
                }
            },
            None => {
                self.entries.push(entry);
                proof {
                    let after = *self;
                    let n = before.entries@.len() as int;
                    after.lemma_slot(n, *owner, *mint);
                    assert forall|o: Address, m: Address|
                        !(o == *owner && m == *mint) implies #[trigger] after.holding(o, m)
                        == before.holding(o, m) by {
                        if before.has(o, m) {
                            let k = before.slot(o, m);
                            after.lemma_slot(k, o, m);
                        } else if after.has(o, m) {
                            let k = after.slot(o, m);
                            assert(k != n);
                            assert(stored_under(before.entries@[k], o, m));
                        }
                    }
                }
            },
        }
    }

    /// Adds `amount` to the wallet of `owner` for `mint`, as when tokens
    /// reach the holder from elsewhere. Returns whether it did: it does not,
    /// and changes nothing, where the holding would outgrow 64 bits.
    pub fn credit(&mut self, owner: &Address, mint: &Address, amount: u64) -> (done: bool)
        requires
            old(self).wf(),
        ensures
            final(self).wf(),
            match after_credit(old(self).holding(*owner, *mint), amount) {
                Some(next) => {
                    &&& done
                    &&& final(self).holding(*owner, *mint) == next
                    &&& changed_only_at(*old(self), *final(self), *owner, *mint)
                },
                None => !done && *final(self) == *old(self),
            },
    {
        let mut holding = self.load(owner, mint);
        let held: u64 = holding.wallet.amount + holding.vault.amount;
        if amount > u64::MAX - held {
            return false;
        }
        holding.wallet.amount = holding.wallet.amount + amount;
        self.store(owner, mint, holding);
        true
    }
}

} // verus!
