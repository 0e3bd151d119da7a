//! What holds of the staking operations taken together. Each law speaks of
//! ledgers before and after calls of `initialize`, `stake` and `unstake`, in
//! the terms in which those functions describe their own effect.

use crate::address::Address;
use crate::errors::AppError;
use crate::instructions::{initialize_step, stake_step, unstake_step};
use crate::ledger::Ledger;
use vstd::prelude::*;

verus! {

/// In every well-formed ledger a record holds tokens exactly while it is
/// marked as staked.
pub proof fn law_amount_iff_staked(ledger: Ledger, owner: Address, mint: Address)
    requires
        ledger.wf(),
    ensures
        match ledger.holding(owner, mint).record {
            Some(record) => record.amount > 0 <==> record.is_staked,
            None => true,
        },
{
    ledger.lemma_holding_wf(owner, mint);
}

/// In every well-formed ledger the vault of a holder for a mint holds
/// exactly the amount of the holder's record for that mint, and nothing
/// where there is no record.
pub proof fn law_vault_holds_stake(ledger: Ledger, owner: Address, mint: Address)
    requires
        ledger.wf(),
    ensures
        ledger.holding(owner, mint).vault.amount == ledger.holding(owner, mint).staked_amount(),
{
    ledger.lemma_holding_wf(owner, mint);
}

/// A stake, accepted or refused, leaves the holder's tokens, wallet and
/// vault together, what they were.
pub proof fn law_stake_keeps_total(
    before: Ledger,
    after: Ledger,
    owner: Address,
    mint: Address,
    amount: u64,
    outcome: Result<(), AppError>,
)
    requires
        before.wf(),
        stake_step(before, after, owner, mint, amount, outcome),
    ensures
        after.holding(owner, mint).total() == before.holding(owner, mint).total(),
{
    before.lemma_holding_wf(owner, mint);
}

/// An unstake, accepted or refused, leaves the holder's tokens, wallet and
/// vault together, what they were.
pub proof fn law_unstake_keeps_total(
    before: Ledger,
    after: Ledger,
    owner: Address,
    mint: Address,
    outcome: Result<(), AppError>,
)
    requires
        before.wf(),
        unstake_step(before, after, owner, mint, outcome),
    ensures
        after.holding(owner, mint).total() == before.holding(owner, mint).total(),
{
    before.lemma_holding_wf(owner, mint);
}

/// An accepted stake followed by an unstake: the unstake is accepted, the
/// vault is empty again, the record is back at no amount and not staked, and
/// the whole holding, the wallet's balance with it, is what it was before
/// the stake.
pub proof fn law_stake_then_unstake(
    start: Ledger,
    staked: Ledger,
    end: Ledger,
    owner: Address,
    mint: Address,
    amount: u64,
    outcome: Result<(), AppError>,
)
    requires
        start.wf(),
        stake_step(start, staked, owner, mint, amount, Ok(())),
        unstake_step(staked, end, owner, mint, outcome),
    ensures
        outcome is Ok,
        end.holding(owner, mint) == start.holding(owner, mint),
        end.holding(owner, mint).wallet.amount == start.holding(owner, mint).wallet.amount,
        end.holding(owner, mint).vault.amount == 0,
        end.holding(owner, mint).record is Some,
        end.holding(owner, mint).record->Some_0.amount == 0,
        !end.holding(owner, mint).record->Some_0.is_staked,
        forall|o: Address, m: Address| #[trigger] end.holding(o, m) == start.holding(o, m),
{
    start.lemma_holding_wf(owner, mint);
    assert forall|o: Address, m: Address| #[trigger]
        end.holding(o, m) == start.holding(o, m) by {
        if !(o == owner && m == mint) {
            assert(staked.holding(o, m) == start.holding(o, m));
        }
    }
}

/// Of two stakes in a row the second is refused with `IsStaked`, whatever
/// its amount, and leaves the ledger as the first left it.
pub proof fn law_no_double_stake(
    start: Ledger,
    staked: Ledger,
    end: Ledger,
    owner: Address,
    mint: Address,
    first: u64,
    second: u64,
    outcome: Result<(), AppError>,
)
    requires
        stake_step(start, staked, owner, mint, first, Ok(())),
        stake_step(staked, end, owner, mint, second, outcome),
    ensures
        outcome == Err::<(), AppError>(AppError::IsStaked),
        end == staked,
{
}

/// Of two unstakes in a row the second is refused with `NotStaked` and
/// leaves the ledger as the first left it.
pub proof fn law_no_double_unstake(
    start: Ledger,
    unstaked: Ledger,
    end: Ledger,
    owner: Address,
    mint: Address,
    outcome: Result<(), AppError>,
)
    requires
        unstake_step(start, unstaked, owner, mint, Ok(())),
        unstake_step(unstaked, end, owner, mint, outcome),
    ensures
        outcome == Err::<(), AppError>(AppError::NotStaked),
        end == unstaked,
{
}

/// What the vaults of `owner` for the given mints hold together.
pub open spec fn vault_sum(ledger: Ledger, owner: Address, mints: Seq<Address>) -> int
    decreases mints.len(),
{
    if mints.len() == 0 {
        0
    } else {
        vault_sum(ledger, owner, mints.drop_last()) + ledger.holding(
            owner,
            mints.last(),
        ).vault.amount
    }
}

/// The amounts of the records of `owner` for the given mints, added up.
pub open spec fn staked_sum(ledger: Ledger, owner: Address, mints: Seq<Address>) -> int
    decreases mints.len(),
{
    if mints.len() == 0 {
        0
    } else {
        staked_sum(ledger, owner, mints.drop_last()) + ledger.holding(
            owner,
            mints.last(),
        ).staked_amount()
    }
}

/// In every well-formed ledger, and over any mints, the vaults of a holder
/// hold together the sum of the amounts of that holder's records.
pub proof fn law_vaults_hold_stakes(ledger: Ledger, owner: Address, mints: Seq<Address>)
    requires
        ledger.wf(),
    ensures
        vault_sum(ledger, owner, mints) == staked_sum(ledger, owner, mints),
    decreases mints.len(),
{
    if mints.len() > 0 {
        law_vaults_hold_stakes(ledger, owner, mints.drop_last());
        ledger.lemma_holding_wf(owner, mints.last());
    }
}

/// A record, once created, stays, and stays its holder's: none of the three
/// operations removes a record or changes its owner, whatever the outcome.
pub proof fn law_record_persists(
    before: Ledger,
    after: Ledger,
    owner: Address,
    mint: Address,
    amount: u64,
    outcome: Result<(), AppError>,
)
    requires
        before.holding(owner, mint).record is Some,
        initialize_step(before, after, owner, mint, outcome) || stake_step(
            before,
            after,
            owner,
            mint,
            amount,
            outcome,
        ) || unstake_step(before, after, owner, mint, outcome),
    ensures
        after.holding(owner, mint).record is Some,
        after.holding(owner, mint).record->Some_0.owner == before.holding(
            owner,
            mint,
        ).record->Some_0.owner,
{
}

/// Only `initialize` creates a record: where there is none, a stake and an
/// unstake are refused with `NotFound`, and an initialize is accepted and
/// leaves a record with no amount, not staked, and both balances as they
/// were.
pub proof fn law_record_comes_from_initialize(
    before: Ledger,
    after: Ledger,
    owner: Address,
    mint: Address,
    amount: u64,
    outcome: Result<(), AppError>,
)
    requires
        before.holding(owner, mint).record is None,
    ensures
        stake_step(before, after, owner, mint, amount, outcome) ==> outcome == Err::<
            (),
            AppError,
        >(AppError::NotFound) && after == before,
        unstake_step(before, after, owner, mint, outcome) ==> outcome == Err::<(), AppError>(
            AppError::NotFound,
        ) && after == before,
        initialize_step(before, after, owner, mint, outcome) ==> outcome is Ok && after.holding(
            owner,
            mint,
        ).record == Some(crate::state::StakeRecord::fresh(owner)) && after.holding(
            owner,
            mint,
        ).wallet == before.holding(owner, mint).wallet && after.holding(owner, mint).vault
            == before.holding(owner, mint).vault,
{
}

} // verus!
