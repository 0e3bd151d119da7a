use token_staking::address::Address;
use token_staking::custody::TokenAccount;
use token_staking::ledger::Ledger;
use token_staking::state::{Holding, StakeRecord};
use token_staking::{initialize, stake, unstake, AppError};

fn id(tag: u8) -> Address {
    Address::new([tag; 32])
}

fn funded(owner: &Address, mint: &Address, tokens: u64) -> Ledger {
    let mut ledger = Ledger::new(id(9));
    assert!(ledger.credit(owner, mint, tokens));
    ledger
}

fn record_of(ledger: &Ledger, owner: &Address, mint: &Address) -> Option<StakeRecord> {
    ledger.load(owner, mint).record
}

fn balances(ledger: &Ledger, owner: &Address, mint: &Address) -> (u64, u64) {
    let holding = ledger.load(owner, mint);
    (holding.wallet.amount, holding.vault.amount)
}

#[test]
fn full_cycle_moves_tokens_in_and_out() {
    let (user, mint) = (id(1), id(2));
    let mut ledger = funded(&user, &mint, 500);

    assert_eq!(initialize(&mut ledger, &user, &mint), Ok(()));
    assert_eq!(
        record_of(&ledger, &user, &mint),
        Some(StakeRecord { owner: user, is_staked: false, amount: 0 })
    );
    assert_eq!(balances(&ledger, &user, &mint), (500, 0));

    assert_eq!(stake(&mut ledger, &user, &mint, 100), Ok(()));
    assert_eq!(
        record_of(&ledger, &user, &mint),
        Some(StakeRecord { owner: user, is_staked: true, amount: 100 })
    );
    assert_eq!(balances(&ledger, &user, &mint), (400, 100));

    assert_eq!(unstake(&mut ledger, &user, &mint), Ok(()));
    assert_eq!(
        record_of(&ledger, &user, &mint),
        Some(StakeRecord { owner: user, is_staked: false, amount: 0 })
    );
    assert_eq!(balances(&ledger, &user, &mint), (500, 0));
}

#[test]
fn stake_of_zero_is_refused() {
    let (user, mint) = (id(1), id(2));
    let mut ledger = funded(&user, &mint, 500);
    assert_eq!(initialize(&mut ledger, &user, &mint), Ok(()));
    let before = ledger.load(&user, &mint);

    assert_eq!(stake(&mut ledger, &user, &mint, 0), Err(AppError::NoToken));
    assert_eq!(ledger.load(&user, &mint), before);
}

#[test]
fn stake_beyond_balance_is_refused_without_change() {
    let (user, mint) = (id(1), id(2));
    let mut ledger = funded(&user, &mint, 50);
    assert_eq!(initialize(&mut ledger, &user, &mint), Ok(()));
    let before = ledger.load(&user, &mint);

    assert_eq!(stake(&mut ledger, &user, &mint, 100), Err(AppError::NoToken));
    assert_eq!(ledger.load(&user, &mint), before);
    assert_eq!(balances(&ledger, &user, &mint), (50, 0));
    assert_eq!(
        record_of(&ledger, &user, &mint),
        Some(StakeRecord { owner: user, is_staked: false, amount: 0 })
    );
}

#[test]
fn stake_of_whole_balance_is_accepted() {
    let (user, mint) = (id(1), id(2));
    let mut ledger = funded(&user, &mint, 50);
    assert_eq!(initialize(&mut ledger, &user, &mint), Ok(()));
    assert_eq!(stake(&mut ledger, &user, &mint, 50), Ok(()));
    assert_eq!(balances(&ledger, &user, &mint), (0, 50));
    assert_eq!(stake(&mut ledger, &user, &mint, 1), Err(AppError::IsStaked));
}

#[test]
fn stake_one_above_balance_is_refused() {
    let (user, mint) = (id(1), id(2));
    let mut ledger = funded(&user, &mint, 50);
    assert_eq!(initialize(&mut ledger, &user, &mint), Ok(()));
    assert_eq!(stake(&mut ledger, &user, &mint, 51), Err(AppError::NoToken));
}

#[test]
fn second_initialize_is_refused() {
    let (user, mint) = (id(1), id(2));
    let mut ledger = funded(&user, &mint, 500);
    assert_eq!(initialize(&mut ledger, &user, &mint), Ok(()));
    assert_eq!(stake(&mut ledger, &user, &mint, 7), Ok(()));
    let before = ledger.load(&user, &mint);

    assert_eq!(initialize(&mut ledger, &user, &mint), Err(AppError::AlreadyInitialized));
    assert_eq!(ledger.load(&user, &mint), before);
}

#[test]
fn stake_without_record_is_not_found() {
    let (user, mint) = (id(1), id(2));
    let mut ledger = funded(&user, &mint, 500);
    assert_eq!(stake(&mut ledger, &user, &mint, 100), Err(AppError::NotFound));
    assert_eq!(balances(&ledger, &user, &mint), (500, 0));
    assert_eq!(record_of(&ledger, &user, &mint), None);
}

#[test]
fn unstake_without_record_is_not_found() {
    let (user, mint) = (id(1), id(2));
    let mut ledger = funded(&user, &mint, 500);
    assert_eq!(unstake(&mut ledger, &user, &mint), Err(AppError::NotFound));
    assert_eq!(balances(&ledger, &user, &mint), (500, 0));
}

#[test]
fn unstake_before_any_stake_is_refused() {
    let (user, mint) = (id(1), id(2));
    let mut ledger = funded(&user, &mint, 500);
    assert_eq!(initialize(&mut ledger, &user, &mint), Ok(()));
    assert_eq!(unstake(&mut ledger, &user, &mint), Err(AppError::NotStaked));
    assert_eq!(balances(&ledger, &user, &mint), (500, 0));
}

#[test]
fn second_stake_is_refused_and_changes_nothing() {
    let (user, mint) = (id(1), id(2));
    let mut ledger = funded(&user, &mint, 500);
    assert_eq!(initialize(&mut ledger, &user, &mint), Ok(()));
    assert_eq!(stake(&mut ledger, &user, &mint, 100), Ok(()));
    let after_first = ledger.load(&user, &mint);

    assert_eq!(stake(&mut ledger, &user, &mint, 30), Err(AppError::IsStaked));
    assert_eq!(ledger.load(&user, &mint), after_first);
    assert_eq!(stake(&mut ledger, &user, &mint, 0), Err(AppError::IsStaked));
    assert_eq!(stake(&mut ledger, &user, &mint, 1000), Err(AppError::IsStaked));
    assert_eq!(balances(&ledger, &user, &mint), (400, 100));
}

#[test]
fn second_unstake_is_refused() {
    let (user, mint) = (id(1), id(2));
    let mut ledger = funded(&user, &mint, 500);
    assert_eq!(initialize(&mut ledger, &user, &mint), Ok(()));
    assert_eq!(stake(&mut ledger, &user, &mint, 100), Ok(()));
    assert_eq!(unstake(&mut ledger, &user, &mint), Ok(()));
    let after_first = ledger.load(&user, &mint);

    assert_eq!(unstake(&mut ledger, &user, &mint), Err(AppError::NotStaked));
    assert_eq!(ledger.load(&user, &mint), after_first);
}

#[test]
fn record_is_reused_across_cycles() {
    let (user, mint) = (id(1), id(2));
    let mut ledger = funded(&user, &mint, 500);
    assert_eq!(initialize(&mut ledger, &user, &mint), Ok(()));
    for amount in [100u64, 500, 1] {
        let before = ledger.load(&user, &mint);
        assert_eq!(stake(&mut ledger, &user, &mint, amount), Ok(()));
        let held = ledger.load(&user, &mint);
        assert_eq!(held.wallet.amount + held.vault.amount, 500);
        assert_eq!(held.vault.amount, amount);
        assert_eq!(held.record.unwrap().amount, amount);
        assert!(held.record.unwrap().is_staked);
        assert_eq!(unstake(&mut ledger, &user, &mint), Ok(()));
        assert_eq!(ledger.load(&user, &mint), before);
    }
}

#[test]
fn amount_is_positive_exactly_while_staked() {
    let (user, mint) = (id(1), id(2));
    let mut ledger = funded(&user, &mint, 500);
    let check = |ledger: &Ledger| {
        if let Some(record) = ledger.load(&user, &mint).record {
            assert_eq!(record.amount > 0, record.is_staked);
            assert_eq!(ledger.load(&user, &mint).vault.amount, record.amount);
        } else {
            assert_eq!(ledger.load(&user, &mint).vault.amount, 0);
        }
    };
    check(&ledger);
    let _ = initialize(&mut ledger, &user, &mint);
    check(&ledger);
    let _ = stake(&mut ledger, &user, &mint, 0);
    check(&ledger);
    let _ = stake(&mut ledger, &user, &mint, 499);
    check(&ledger);
    let _ = stake(&mut ledger, &user, &mint, 1);
    check(&ledger);
    let _ = unstake(&mut ledger, &user, &mint);
    check(&ledger);
    let _ = unstake(&mut ledger, &user, &mint);
    check(&ledger);
}

#[test]
fn holders_and_mints_are_independent() {
    let (alice, bob, gold, iron) = (id(1), id(2), id(3), id(4));
    let mut ledger = Ledger::new(id(9));
    assert!(ledger.credit(&alice, &gold, 10));
    assert!(ledger.credit(&alice, &iron, 20));
    assert!(ledger.credit(&bob, &gold, 30));
    assert_eq!(initialize(&mut ledger, &alice, &gold), Ok(()));
    assert_eq!(initialize(&mut ledger, &bob, &gold), Ok(()));

    assert_eq!(stake(&mut ledger, &alice, &gold, 4), Ok(()));
    assert_eq!(balances(&ledger, &alice, &gold), (6, 4));
    assert_eq!(balances(&ledger, &alice, &iron), (20, 0));
    assert_eq!(balances(&ledger, &bob, &gold), (30, 0));
    assert_eq!(stake(&mut ledger, &alice, &iron, 4), Err(AppError::NotFound));
    assert_eq!(unstake(&mut ledger, &bob, &gold), Err(AppError::NotStaked));
    assert_eq!(stake(&mut ledger, &bob, &gold, 30), Ok(()));
    assert_eq!(unstake(&mut ledger, &alice, &gold), Ok(()));
    assert_eq!(balances(&ledger, &alice, &gold), (10, 0));
    assert_eq!(balances(&ledger, &bob, &gold), (0, 30));
}

#[test]
fn new_ledger_holds_nothing() {
    let ledger = Ledger::new(id(9));
    assert_eq!(ledger.program_id(), id(9));
    assert_eq!(
        ledger.load(&id(1), &id(2)),
        Holding {
            wallet: TokenAccount { authority: id(1), amount: 0 },
            vault: TokenAccount { authority: id(9), amount: 0 },
            record: None,
        }
    );
}

#[test]
fn credit_adds_to_the_wallet_only() {
    let (user, mint) = (id(1), id(2));
    let mut ledger = Ledger::new(id(9));
    assert!(ledger.credit(&user, &mint, 5));
    assert!(ledger.credit(&user, &mint, 7));
    assert_eq!(balances(&ledger, &user, &mint), (12, 0));
    assert_eq!(record_of(&ledger, &user, &mint), None);
    assert_eq!(balances(&ledger, &user, &id(3)), (0, 0));
}

#[test]
fn credit_refuses_what_would_not_fit() {
    let (user, mint) = (id(1), id(2));
    let mut ledger = Ledger::new(id(9));
    assert!(ledger.credit(&user, &mint, u64::MAX - 1));
    assert_eq!(initialize(&mut ledger, &user, &mint), Ok(()));
    assert_eq!(stake(&mut ledger, &user, &mint, u64::MAX - 1), Ok(()));
    assert!(!ledger.credit(&user, &mint, 2));
    assert_eq!(balances(&ledger, &user, &mint), (0, u64::MAX - 1));
    assert!(ledger.credit(&user, &mint, 1));
    assert_eq!(unstake(&mut ledger, &user, &mint), Ok(()));
    assert_eq!(balances(&ledger, &user, &mint), (u64::MAX, 0));
}

#[test]
fn vaults_of_a_holder_hold_the_recorded_amounts() {
    let (alice, gold, iron, salt) = (id(1), id(3), id(4), id(5));
    let mut ledger = Ledger::new(id(9));
    for (mint, tokens) in [(gold, 10u64), (iron, 20), (salt, 30)] {
        assert!(ledger.credit(&alice, &mint, tokens));
    }
    assert_eq!(initialize(&mut ledger, &alice, &gold), Ok(()));
    assert_eq!(initialize(&mut ledger, &alice, &iron), Ok(()));
    assert_eq!(stake(&mut ledger, &alice, &gold, 4), Ok(()));
    assert_eq!(stake(&mut ledger, &alice, &iron, 20), Ok(()));
    assert_eq!(stake(&mut ledger, &alice, &salt, 5), Err(AppError::NotFound));

    let mut in_vaults = 0u64;
    let mut recorded = 0u64;
    for mint in [gold, iron, salt] {
        let held = ledger.load(&alice, &mint);
        in_vaults += held.vault.amount;
        recorded += held.record.map_or(0, |record| record.amount);
    }
    assert_eq!(in_vaults, 24);
    assert_eq!(recorded, 24);
}

#[test]
fn refused_steps_keep_the_total() {
    let (user, mint) = (id(1), id(2));
    let mut ledger = funded(&user, &mint, 500);
    let total = |ledger: &Ledger| {
        let (wallet, vault) = balances(ledger, &user, &mint);
        wallet + vault
    };
    assert_eq!(initialize(&mut ledger, &user, &mint), Ok(()));
    assert_eq!(stake(&mut ledger, &user, &mint, 501), Err(AppError::NoToken));
    assert_eq!(total(&ledger), 500);
    assert_eq!(stake(&mut ledger, &user, &mint, 200), Ok(()));
    assert_eq!(total(&ledger), 500);
    assert_eq!(stake(&mut ledger, &user, &mint, 200), Err(AppError::IsStaked));
    assert_eq!(total(&ledger), 500);
    assert_eq!(unstake(&mut ledger, &user, &mint), Ok(()));
    assert_eq!(total(&ledger), 500);
    assert_eq!(unstake(&mut ledger, &user, &mint), Err(AppError::NotStaked));
    assert_eq!(total(&ledger), 500);
}
