use staking_pool::custody::Authority;
use staking_pool::custody::TransferRequest;
use staking_pool::custody::VaultRef;
use staking_pool::engine::StakingEngine;
use staking_pool::errors::CustomError;
use staking_pool::policy::TieringStrategy;
use staking_pool::reward::MONTH_SECONDS;
use staking_pool::reward::YEAR_SECONDS;

const ALICE: u64 = 11;
const BOB: u64 = 22;
const FUNDER: u64 = 99;

#[test]
fn initialize_rejects_zero_amount() {
    let mut engine = StakingEngine::new(TieringStrategy::ReserveTiering);
    let r = engine.initialize(FUNDER, 0);
    assert_eq!(r, Err(CustomError::InvalidAmount));
    assert_eq!(engine.pool.total_rewards, 0);
    assert_eq!(engine.pool.total_staked, 0);
}

#[test]
fn deposit_rejects_zero_amount() {
    let mut engine = StakingEngine::new(TieringStrategy::ReserveTiering);
    let r = engine.deposit(ALICE, 0, 5);
    assert_eq!(r, Err(CustomError::InvalidAmount));
    assert_eq!(engine.pool.total_staked, 0);
    assert!(engine.position(ALICE).is_none());
}

#[test]
fn initialize_funds_reserve_and_requests_transfer() {
    let mut engine = StakingEngine::new(TieringStrategy::ReserveTiering);
    let r = engine.initialize(FUNDER, 500);
    assert_eq!(
        r,
        Ok(TransferRequest {
            from: VaultRef::UserVault(FUNDER),
            to: VaultRef::PoolVault,
            amount: 500,
            authority: Authority::UserSigner(FUNDER),
        })
    );
    assert_eq!(engine.pool.total_rewards, 500);
    assert_eq!(engine.pool.total_staked, 0);
    // The permissive variant: funding again simply adds.
    let r2 = engine.initialize(FUNDER, 100);
    assert!(r2.is_ok());
    assert_eq!(engine.pool.total_rewards, 600);
}

#[test]
fn deposit_creates_position_and_requests_transfer() {
    let mut engine = StakingEngine::new(TieringStrategy::ReserveTiering);
    let r = engine.deposit(ALICE, 1000, 77);
    assert_eq!(
        r,
        Ok(TransferRequest {
            from: VaultRef::UserVault(ALICE),
            to: VaultRef::PoolVault,
            amount: 1000,
            authority: Authority::UserSigner(ALICE),
        })
    );
    let p = engine.position(ALICE).unwrap();
    assert_eq!(p.owner, ALICE);
    assert_eq!(p.amount_staked, 1000);
    assert_eq!(p.staked_at, 77);
    assert_eq!(p.last_withdraw_at, 0);
    assert_eq!(engine.pool.total_staked, 1000);
}

#[test]
fn total_staked_is_sum_of_positions() {
    let mut engine = StakingEngine::new(TieringStrategy::ReserveTiering);
    engine.deposit(ALICE, 1000, 0).unwrap();
    engine.deposit(BOB, 250, 1).unwrap();
    engine.deposit(ALICE, 500, 2).unwrap();
    engine.deposit(BOB, 1, 3).unwrap();
    let total: u64 = engine
        .positions
        .iter()
        .map(|p| p.amount_staked)
        .sum();
    assert_eq!(engine.pool.total_staked, total);
    assert_eq!(engine.pool.total_staked, 1751);
    assert_eq!(engine.position(ALICE).unwrap().amount_staked, 1500);
    assert_eq!(engine.position(BOB).unwrap().amount_staked, 251);
}

#[test]
fn deposit_resets_accrual_clock_for_whole_balance() {
    let mut engine = StakingEngine::new(TieringStrategy::ReserveTiering);
    engine.initialize(FUNDER, 1000).unwrap();
    engine.deposit(ALICE, 1000, 0).unwrap();
    // A top-up two months in restarts accrual for everything.
    engine.deposit(ALICE, 10, 2 * MONTH_SECONDS).unwrap();
    assert_eq!(engine.position(ALICE).unwrap().staked_at, 2 * MONTH_SECONDS);
    let r = engine.withdraw(ALICE, 3 * MONTH_SECONDS - 1);
    assert_eq!(r, Err(CustomError::InsufficientWithdrawal));
    let r2 = engine.withdraw(ALICE, 3 * MONTH_SECONDS);
    assert!(r2.is_ok());
}

#[test]
fn withdraw_before_first_full_month_fails() {
    let mut engine = StakingEngine::new(TieringStrategy::ReserveTiering);
    engine.initialize(FUNDER, 100).unwrap();
    engine.deposit(ALICE, 1000, 0).unwrap();
    let r = engine.withdraw(ALICE, MONTH_SECONDS - 1);
    assert_eq!(r, Err(CustomError::InsufficientWithdrawal));
    let p = engine.position(ALICE).unwrap();
    assert_eq!(p.amount_staked, 1000);
    assert_eq!(p.last_withdraw_at, 0);
}

#[test]
fn reserve_partial_unlock_scenario() {
    // staked 1000, reward 17, reserve 100: payout 101, principal -100,
    // reserve -1.
    let mut engine = StakingEngine::new(TieringStrategy::ReserveTiering);
    engine.initialize(FUNDER, 100).unwrap();
    engine.deposit(ALICE, 1000, 0).unwrap();
    let r = engine.withdraw(ALICE, 3 * MONTH_SECONDS);
    assert_eq!(
        r,
        Ok(TransferRequest {
            from: VaultRef::PoolVault,
            to: VaultRef::UserVault(ALICE),
            amount: 101,
            authority: Authority::PoolSigner,
        })
    );
    let p = engine.position(ALICE).unwrap();
    assert_eq!(p.amount_staked, 900);
    assert_eq!(p.last_withdraw_at, 3 * MONTH_SECONDS);
    assert_eq!(engine.pool.total_staked, 900);
    assert_eq!(engine.pool.total_rewards, 99);
}

#[test]
fn reserve_full_unlock_after_a_year() {
    let mut engine = StakingEngine::new(TieringStrategy::ReserveTiering);
    engine.initialize(FUNDER, 100).unwrap();
    engine.deposit(ALICE, 1000, 0).unwrap();
    let r = engine.withdraw(ALICE, YEAR_SECONDS);
    // reward over 12 months: floor(1000 * 0.00575 * 12) == 69
    assert_eq!(
        r,
        Ok(TransferRequest {
            from: VaultRef::PoolVault,
            to: VaultRef::UserVault(ALICE),
            amount: 1069,
            authority: Authority::PoolSigner,
        })
    );
    let p = engine.position(ALICE).unwrap();
    assert_eq!(p.amount_staked, 0);
    assert_eq!(engine.pool.total_staked, 0);
    assert_eq!(engine.pool.total_rewards, 31);
}

#[test]
fn proportional_cap_scenario() {
    // staked 1000, months 3, reward 17: payout min(1000, 300) + 17 == 317,
    // position reduces to 683, no reserve drawn.
    let mut engine = StakingEngine::new(TieringStrategy::ProportionalCap);
    engine.deposit(ALICE, 1000, 0).unwrap();
    let r = engine.withdraw(ALICE, 3 * MONTH_SECONDS);
    assert_eq!(
        r,
        Ok(TransferRequest {
            from: VaultRef::PoolVault,
            to: VaultRef::UserVault(ALICE),
            amount: 317,
            authority: Authority::PoolSigner,
        })
    );
    let p = engine.position(ALICE).unwrap();
    assert_eq!(p.amount_staked, 683);
    assert_eq!(engine.pool.total_staked, 683);
    assert_eq!(engine.pool.total_rewards, 0);
}

#[test]
fn cooldown_locks_second_withdrawal() {
    let mut engine = StakingEngine::new(TieringStrategy::ReserveTiering);
    engine.initialize(FUNDER, 100).unwrap();
    engine.deposit(ALICE, 1000, 0).unwrap();
    engine.withdraw(ALICE, 3 * MONTH_SECONDS).unwrap();
    let r = engine.withdraw(ALICE, 4 * MONTH_SECONDS - 1);
    assert_eq!(r, Err(CustomError::WithdrawalLocked));
    // State untouched by the failed attempt.
    assert_eq!(engine.position(ALICE).unwrap().amount_staked, 900);
    assert_eq!(engine.pool.total_rewards, 99);
    // One full month after the prior withdrawal it unlocks again.
    let r2 = engine.withdraw(ALICE, 4 * MONTH_SECONDS);
    assert!(r2.is_ok());
}

#[test]
fn first_withdrawal_never_locked_by_cooldown() {
    // A position that has never withdrawn (last_withdraw_at == 0) is not
    // subject to the cooldown, however long ago it staked.
    let mut engine = StakingEngine::new(TieringStrategy::ReserveTiering);
    engine.initialize(FUNDER, 100).unwrap();
    engine.deposit(ALICE, 1000, 0).unwrap();
    let r = engine.withdraw(ALICE, MONTH_SECONDS);
    // reward floor(1000 * 0.00575 * 1) == 5; payout (1000+5)/10 == 100
    assert_eq!(
        r,
        Ok(TransferRequest {
            from: VaultRef::PoolVault,
            to: VaultRef::UserVault(ALICE),
            amount: 100,
            authority: Authority::PoolSigner,
        })
    );
}

#[test]
fn reserve_shortfall_fails_and_changes_nothing() {
    let mut engine = StakingEngine::new(TieringStrategy::ReserveTiering);
    engine.initialize(FUNDER, 10).unwrap();
    engine.deposit(ALICE, 1000, 0).unwrap();
    // reward 17 >= reserve 10
    let r = engine.withdraw(ALICE, 3 * MONTH_SECONDS);
    assert_eq!(r, Err(CustomError::InsufficientPoolReserve));
    let p = engine.position(ALICE).unwrap();
    assert_eq!(p.amount_staked, 1000);
    assert_eq!(p.last_withdraw_at, 0);
    assert_eq!(engine.pool.total_staked, 1000);
    assert_eq!(engine.pool.total_rewards, 10);
}

#[test]
fn withdrawal_fits_accepts_ordinary_positions() {
    let mut engine = StakingEngine::new(TieringStrategy::ReserveTiering);
    engine.initialize(FUNDER, 100).unwrap();
    engine.deposit(ALICE, 1000, 0).unwrap();
    assert!(engine.withdrawal_fits(ALICE, 3 * MONTH_SECONDS));
    assert!(engine.withdrawal_fits(ALICE, MONTH_SECONDS - 1));
}

#[test]
fn withdrawal_fits_rejects_overfull_proportional_payout() {
    // After ten accrued months the proportional tier releases the whole
    // principal plus the reward: more than the position holds, so the plan
    // cannot be applied to the ledger and the host must refuse the attempt.
    let mut engine = StakingEngine::new(TieringStrategy::ProportionalCap);
    engine.deposit(ALICE, 1000, 0).unwrap();
    assert!(!engine.withdrawal_fits(ALICE, 10 * MONTH_SECONDS));
}
