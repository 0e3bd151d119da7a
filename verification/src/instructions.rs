//! The three operations that holders call. Each reads one holding, decides,
//! and on success writes that holding back in a single step; on refusal the
//! ledger is left exactly as it was. An operation holds the ledger
//! exclusively while it runs, so two operations on one record never
//! interleave.

use crate::address::Address;
use crate::errors::AppError;
use crate::ledger::{changed_only_at, Ledger};
use crate::state::Holding;
use crate::transitions::{after_initialize, after_stake, after_unstake};
use vstd::prelude::*;

verus! {

/// What an operation on the holding of `owner` for `mint` that should come
/// to `expected` did to the ledger. On success that holding is the expected
/// one and no other holding has changed; on refusal the reason is reported
/// and the ledger is untouched.
pub open spec fn committed(
    before: Ledger,
    after: Ledger,
    owner: Address,
    mint: Address,
    expected: Result<Holding, AppError>,
    outcome: Result<(), AppError>,
) -> bool {
    match expected {
        Ok(next) => {
            &&& outcome is Ok
            &&& after.holding(owner, mint) == next
            &&& changed_only_at(before, after, owner, mint)
        },
        Err(reason) => outcome == Err::<(), AppError>(reason) && after == before,
    }
}

/// `initialize` took the ledger from `before` to `after` with `outcome`.
pub open spec fn initialize_step(
    before: Ledger,
    after: Ledger,
    owner: Address,
    mint: Address,
    outcome: Result<(), AppError>,
) -> bool {
    committed(
        before,
        after,
        owner,
        mint,
        after_initialize(before.holding(owner, mint), owner),
        outcome,
    )
}

/// `stake` of `amount` took the ledger from `before` to `after` with `outcome`.
pub open spec fn stake_step(
    before: Ledger,
    after: Ledger,
    owner: Address,
    mint: Address,
    amount: u64,
    outcome: Result<(), AppError>,
) -> bool {
    committed(before, after, owner, mint, after_stake(before.holding(owner, mint), amount), outcome)
}

/// `unstake` took the ledger from `before` to `after` with `outcome`.
pub open spec fn unstake_step(
    before: Ledger,
    after: Ledger,
    owner: Address,
    mint: Address,
    outcome: Result<(), AppError>,
) -> bool {
    committed(before, after, owner, mint, after_unstake(before.holding(owner, mint)), outcome)
}

/// Creates the stake record of `owner` for `mint`, with nothing staked.
/// Fails with `AlreadyInitialized` exactly where the record exists.
pub fn initialize(ledger: &mut Ledger, owner: &Address, mint: &Address) -> (outcome: Result<
    (),
    AppError,
>)
    requires
        old(ledger).wf(),
    ensures
        final(ledger).wf(),
        initialize_step(*old(ledger), *final(ledger), *owner, *mint, outcome),
{
    let mut holding = ledger.load(owner, mint);
    match holding.apply_initialize(owner) {
        Ok(()) => {
            ledger.store(owner, mint, holding);
            Ok(())
        },
        Err(reason) => Err(reason),
    }
}

/// Moves `amount` from the wallet of `owner` into the vault and records it.
/// Fails with `NotFound` without a record, else with `IsStaked` while a
/// deposit is held, else with `NoToken` where `amount` is zero or more than
/// the wallet holds; succeeds on every other input.
pub fn stake(ledger: &mut Ledger, owner: &Address, mint: &Address, amount: u64) -> (outcome: Result<
    (),
    AppError,
>)
    requires
        old(ledger).wf(),
    ensures
        final(ledger).wf(),
        stake_step(*old(ledger), *final(ledger), *owner, *mint, amount, outcome),
{
    let mut holding = ledger.load(owner, mint);
    match holding.apply_stake(owner, amount) {
        Ok(()) => {
            ledger.store(owner, mint, holding);
            Ok(())
        },
        Err(reason) => Err(reason),
    }
}

/// Moves the whole recorded deposit of `owner` from the vault back to the
/// wallet and resets the record. Fails with `NotFound` without a record,
/// else with `NotStaked` while nothing is staked; succeeds otherwise.
pub fn unstake(ledger: &mut Ledger, owner: &Address, mint: &Address) -> (outcome: Result<
    (),
    AppError,
>)
    requires
        old(ledger).wf(),
    ensures
        final(ledger).wf(),
        unstake_step(*old(ledger), *final(ledger), *owner, *mint, outcome),
{
    let mut holding = ledger.load(owner, mint);
    let program = ledger.program_id();
    match holding.apply_unstake(&program) {
        Ok(()) => {
            ledger.store(owner, mint, holding);
            Ok(())
        },
        Err(reason) => Err(reason),
    }
}

} // verus!
