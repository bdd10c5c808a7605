//! The withdrawal policy.
//!
//! A withdrawal attempt is evaluated fresh on every call, from the position,
//! the pool's reward reserve, and the current time alone:
//!
//! 1. Cooldown: a position that has withdrawn before (`last_withdraw_at`
//!    not 0) is locked for one fixed month after that withdrawal. A position
//!    that has never withdrawn is never locked by this rule.
//! 2. Qualification: fewer than one full accrued month fails.
//! 3. Tiering, per the configured strategy:
//!    - proportional-cap: one tenth of the principal is released per accrued
//!      month, capped at the full principal, plus the full reward; the
//!      position is reduced by exactly that payout and no reserve is drawn.
//!    - reserve-tiering: the reward must be strictly covered by the pool
//!      reserve; after twelve full months the whole position plus reward is
//!      released, before that one tenth of principal, reward, and payout.
//! 4. A computed payout of zero fails.

use crate::errors::CustomError;
use crate::ledger::UserAccount;
use crate::reward::lemma_max_months_small;
use crate::reward::lemma_months_elapsed_bounds;
use crate::reward::lemma_reward_nonneg;
use crate::reward::months_elapsed;
use crate::reward::reward_amount_exact;
use crate::reward::spec_months_elapsed;
use crate::reward::spec_reward;
use crate::reward::MAX_TIMESTAMP;
use crate::reward::MONTH_SECONDS;
use crate::reward::YEAR_SECONDS;
use vstd::math::min;
use vstd::prelude::*;

verus! {

/// The tiering strategy deciding how much of a qualified position a
/// withdrawal releases.
#[derive(Clone, Copy, Debug, PartialEq, Eq)]
pub enum TieringStrategy {
    /// One tenth of the principal per accrued month, capped at the full
    /// principal, plus the full reward; nothing is drawn from the reserve.
    ProportionalCap,
    /// Principal and reward release together: in full after twelve months,
    /// one tenth before; the reward is drawn from the pool reserve.
    ReserveTiering,
}

/// What a successful evaluation tells the engine to do: pay
/// `withdrawable` out of the pool vault, reduce the position (and the
/// pool's aggregate) by `principal_reduce`, and draw `reward_reduce` from
/// the reward reserve.
#[derive(Clone, Copy, Debug, PartialEq, Eq)]
pub struct WithdrawalPlan {
    pub withdrawable: u64,
    pub principal_reduce: u64,
    pub reward_reduce: u64,
}

/// The cooldown rule: a position that has withdrawn before is locked for
/// one fixed month from that withdrawal; `last_withdraw_at == 0` means the
/// position has never withdrawn and is never locked.
pub open spec fn spec_locked(last_withdraw_at: int, now: int) -> bool {
    last_withdraw_at != 0 && now < last_withdraw_at + MONTH_SECONDS as int
}

/// Twelve full fixed months since the accrual clock release the whole
/// position under reserve-tiering.
pub open spec fn spec_full_unlock(staked_at: int, now: int) -> bool {
    now >= staked_at + YEAR_SECONDS as int
}

/// The `(withdrawable, principal_reduce, reward_reduce)` triple a qualified
/// withdrawal computes, before the zero-payout check.
pub open spec fn spec_tier_amounts(
    p: UserAccount,
    now: int,
    months: int,
    rw: int,
    strategy: TieringStrategy,
) -> (int, int, int) {
    match strategy {
        TieringStrategy::ProportionalCap => {
            let cap = min(p.amount_staked as int, (p.amount_staked as int) * months / 10);
            (cap + rw, cap + rw, 0)
        },
        TieringStrategy::ReserveTiering => {
            if spec_full_unlock(p.staked_at as int, now) {
                (p.amount_staked as int + rw, p.amount_staked as int, rw)
            } else {
                ((p.amount_staked as int + rw) / 10, p.amount_staked as int / 10, rw / 10)
            }
        },
    }
}

/// The full outcome of one withdrawal attempt: the error it fails with, or
/// the exact amounts it releases.
pub open spec fn spec_withdrawal_outcome(
    p: UserAccount,
    pool_reserve: u64,
    now: i64,
    strategy: TieringStrategy,
) -> Result<(int, int, int), CustomError> {
    let months = spec_months_elapsed(p.staked_at as int, now as int);
    let rw = spec_reward(p.amount_staked as int, months);
    if spec_locked(p.last_withdraw_at as int, now as int) {
        Result::Err(CustomError::WithdrawalLocked)
    } else if months < 1 {
        Result::Err(CustomError::InsufficientWithdrawal)
    } else if strategy is ReserveTiering && rw >= pool_reserve as int {
        Result::Err(CustomError::InsufficientPoolReserve)
    } else {
        let amounts = spec_tier_amounts(p, now as int, months, rw, strategy);
        if amounts.0 <= 0 {
            Result::Err(CustomError::InsufficientWithdrawal)
        } else {
            Result::Ok(amounts)
        }
    }
}

/// A successful outcome's payout fits the machine word. The host aborts
/// the transaction where this fails; callers rule it out up front.
pub open spec fn plan_fits(
    p: UserAccount,
    pool_reserve: u64,
    now: i64,
    strategy: TieringStrategy,
) -> bool {
    match spec_withdrawal_outcome(p, pool_reserve, now, strategy) {
        Result::Ok(amounts) => amounts.0 <= u64::MAX as int,
        Result::Err(_) => true,
    }
}

/// A successful outcome's amounts can be applied to the ledger: the payout
/// fits the machine word and the principal reduction does not exceed the
/// position it is drawn from. The host aborts the transaction where this
/// fails; callers rule it out up front.
pub open spec fn plan_applies(
    p: UserAccount,
    pool_reserve: u64,
    now: i64,
    strategy: TieringStrategy,
) -> bool {
    &&& plan_fits(p, pool_reserve, now, strategy)
    &&& match spec_withdrawal_outcome(p, pool_reserve, now, strategy) {
        Result::Ok(amounts) => amounts.1 <= p.amount_staked as int,
        Result::Err(_) => true,
    }
}

/// Evaluates one withdrawal attempt and returns exactly what
/// [`spec_withdrawal_outcome`] names: the error, or the plan with the
/// released amounts.
pub fn evaluate_withdrawal(
    position: &UserAccount,
    pool_reserve: u64,
    now: i64,
    strategy: TieringStrategy,
) -> (r: Result<WithdrawalPlan, CustomError>)
    requires
        position.wf(),
        0 <= now <= MAX_TIMESTAMP,
        plan_fits(*position, pool_reserve, now, strategy),
    ensures
        match spec_withdrawal_outcome(*position, pool_reserve, now, strategy) {
            Result::Ok(amounts) => r matches Result::Ok(plan) && plan.withdrawable == amounts.0
                && plan.principal_reduce == amounts.1 && plan.reward_reduce == amounts.2,
            Result::Err(e) => r == Result::<WithdrawalPlan, CustomError>::Err(e),
        },
{
    if position.last_withdraw_at != 0 && now < position.last_withdraw_at + MONTH_SECONDS {
        return Err(CustomError::WithdrawalLocked);
    }
    let months = months_elapsed(position.staked_at, now);
    if months < 1 {
        return Err(CustomError::InsufficientWithdrawal);
    }
    proof {
        lemma_months_elapsed_bounds(position.staked_at as int, now as int);
        lemma_reward_nonneg(position.amount_staked as int, months as int);
    }
    let rw = reward_amount_exact(position.amount_staked, months);
    let staked = position.amount_staked;
    match strategy {
        TieringStrategy::ProportionalCap => {
            proof {
                lemma_max_months_small();
                assert((staked as int) * (months as int) <= u128::MAX as int)
                    by (nonlinear_arith)
                    requires
                        staked <= u64::MAX,
                        0 <= months < 3600000000000,
                ;
            }
            let scaled: u128 = (staked as u128) * (months as u128) / 10;
            let cap: u64 = if scaled < staked as u128 {
                scaled as u64
            } else {
                staked
            };
            let wide: u128 = cap as u128 + rw;
            if wide == 0 {
                return Err(CustomError::InsufficientWithdrawal);
            }
            let w: u64 = wide as u64;
            Ok(WithdrawalPlan { withdrawable: w, principal_reduce: w, reward_reduce: 0 })
        },
        TieringStrategy::ReserveTiering => {
            if rw >= pool_reserve as u128 {
                return Err(CustomError::InsufficientPoolReserve);
            }
            if now >= position.staked_at + YEAR_SECONDS {
                let wide: u128 = staked as u128 + rw;
                if wide == 0 {
                    return Err(CustomError::InsufficientWithdrawal);
                }
                let w: u64 = wide as u64;
                Ok(WithdrawalPlan {
                    withdrawable: w,
                    principal_reduce: staked,
                    reward_reduce: rw as u64,
                })
            } else {
                let wide: u128 = (staked as u128 + rw) / 10;
                if wide == 0 {
                    return Err(CustomError::InsufficientWithdrawal);
                }
                let w: u64 = wide as u64;
                Ok(WithdrawalPlan {
                    withdrawable: w,
                    principal_reduce: staked / 10,
                    reward_reduce: (rw as u64) / 10,
                })
            }
        },
    }
}

/// Law: a position that has never withdrawn (`last_withdraw_at == 0`) is
/// never locked by the cooldown rule, whatever its accrual clock says, so
/// its withdrawal never fails `WithdrawalLocked`.
pub proof fn lemma_first_withdrawal_never_locked(
    p: UserAccount,
    pool_reserve: u64,
    now: i64,
    strategy: TieringStrategy,
)
    requires
        p.last_withdraw_at == 0,
    ensures
        !spec_locked(p.last_withdraw_at as int, now as int),
        spec_withdrawal_outcome(p, pool_reserve, now, strategy) != Result::<
            (int, int, int),
            CustomError,
        >::Err(CustomError::WithdrawalLocked),
{
}

/// Law: a withdrawal attempted within one fixed month of a prior one
/// (`last_withdraw_at != 0`) fails `WithdrawalLocked`.
pub proof fn lemma_cooldown_locks(
    p: UserAccount,
    pool_reserve: u64,
    now: i64,
    strategy: TieringStrategy,
)
    requires
        p.last_withdraw_at != 0,
        (now as int) < p.last_withdraw_at as int + MONTH_SECONDS as int,
    ensures
        spec_withdrawal_outcome(p, pool_reserve, now, strategy) == Result::<
            (int, int, int),
            CustomError,
        >::Err(CustomError::WithdrawalLocked),
{
}

/// Law: an unlocked withdrawal before one full accrued month since the
/// accrual clock fails `InsufficientWithdrawal`.
pub proof fn lemma_unqualified_before_first_month(
    p: UserAccount,
    pool_reserve: u64,
    now: i64,
    strategy: TieringStrategy,
)
    requires
        !spec_locked(p.last_withdraw_at as int, now as int),
        spec_months_elapsed(p.staked_at as int, now as int) < 1,
    ensures
        spec_withdrawal_outcome(p, pool_reserve, now, strategy) == Result::<
            (int, int, int),
            CustomError,
        >::Err(CustomError::InsufficientWithdrawal),
{
}

/// Law: under reserve-tiering, an unlocked and qualified withdrawal whose
/// accrued reward reaches the pool's reserve fails
/// `InsufficientPoolReserve`.
pub proof fn lemma_reserve_shortfall(p: UserAccount, pool_reserve: u64, now: i64)
    requires
        !spec_locked(p.last_withdraw_at as int, now as int),
        spec_months_elapsed(p.staked_at as int, now as int) >= 1,
        spec_reward(p.amount_staked as int, spec_months_elapsed(p.staked_at as int, now as int))
            >= pool_reserve as int,
    ensures
        spec_withdrawal_outcome(p, pool_reserve, now, TieringStrategy::ReserveTiering) == Result::<
            (int, int, int),
            CustomError,
        >::Err(CustomError::InsufficientPoolReserve),
{
}

/// Law: under reserve-tiering, once twelve full fixed months have passed
/// since the accrual clock, an unlocked withdrawal whose reward the reserve
/// covers (and whose payout is not zero) releases the whole position:
/// principal plus reward in full, the reward drawn from the reserve.
pub proof fn lemma_reserve_full_unlock(p: UserAccount, pool_reserve: u64, now: i64)
    requires
        !spec_locked(p.last_withdraw_at as int, now as int),
        now as int >= p.staked_at as int + YEAR_SECONDS as int,
        spec_reward(p.amount_staked as int, spec_months_elapsed(p.staked_at as int, now as int))
            < pool_reserve as int,
        p.amount_staked as int + spec_reward(
            p.amount_staked as int,
            spec_months_elapsed(p.staked_at as int, now as int),
        ) > 0,
    ensures
        spec_withdrawal_outcome(p, pool_reserve, now, TieringStrategy::ReserveTiering) == Result::<
            (int, int, int),
            CustomError,
        >::Ok(
            (
                p.amount_staked as int + spec_reward(
                    p.amount_staked as int,
                    spec_months_elapsed(p.staked_at as int, now as int),
                ),
                p.amount_staked as int,
                spec_reward(
                    p.amount_staked as int,
                    spec_months_elapsed(p.staked_at as int, now as int),
                ),
            ),
        ),
{
    let delta = now as int - p.staked_at as int;
    assert(YEAR_SECONDS as int == 12 * (MONTH_SECONDS as int));
    assert(spec_months_elapsed(p.staked_at as int, now as int) >= 12) by {
        vstd::arithmetic::div_mod::lemma_div_by_multiple(12, MONTH_SECONDS as int);
        vstd::arithmetic::div_mod::lemma_div_is_ordered(
            12 * (MONTH_SECONDS as int),
            delta,
            MONTH_SECONDS as int,
        );
    }
}

} // verus!
