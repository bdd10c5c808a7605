//! The reward accrual calculator.
//!
//! Rewards accrue at a fixed yearly rate of 6.9%, paid out monthly, over
//! fixed 30-day months measured from the position's accrual clock
//! (`staked_at`). The rate is kept in exact fixed point: 6.9% per year is
//! 0.575% per month, i.e. 575 parts in 100,000, so the reward for a stake
//! is `floor(amount * 575 * months / 100000)`.

use vstd::arithmetic::div_mod::lemma_div_is_ordered;
use vstd::prelude::*;

verus! {

/// One fixed accrual month: 30 days of 86,400 seconds each.
pub const MONTH_SECONDS: i64 = 30 * 24 * 60 * 60;

/// Twelve fixed months; the full-unlock threshold of the reserve-tiering
/// strategy.
pub const YEAR_SECONDS: i64 = 12 * MONTH_SECONDS;

/// The largest timestamp the engine accepts. The headroom of one year
/// guarantees that adding the cooldown month or the full-unlock year to a
/// stored timestamp never overflows an `i64`.
pub const MAX_TIMESTAMP: i64 = i64::MAX - YEAR_SECONDS;

/// Monthly rate numerator: 6.9% yearly over 12 months is 0.575% monthly,
/// kept exactly as 575 parts in 100,000.
pub const MONTHLY_RATE_NUMER: u64 = 575;

/// Monthly rate denominator.
pub const MONTHLY_RATE_DENOM: u64 = 100000;

/// The largest month count any pair of accepted timestamps can yield.
pub open spec fn max_months() -> int {
    i64::MAX as int / (MONTH_SECONDS as int)
}

/// Number of whole fixed months between the accrual clock and `now`,
/// truncated, and never negative.
pub open spec fn spec_months_elapsed(staked_at: int, now: int) -> int {
    if now <= staked_at {
        0
    } else {
        (now - staked_at) / (MONTH_SECONDS as int)
    }
}

/// The exact accrued reward: `floor(amount * 575 * months / 100000)`.
pub open spec fn spec_reward(amount_staked: int, months: int) -> int {
    amount_staked * (MONTHLY_RATE_NUMER as int) * months / (MONTHLY_RATE_DENOM as int)
}

pub proof fn lemma_months_elapsed_bounds(staked_at: int, now: int)
    requires
        0 <= staked_at,
        now <= i64::MAX as int,
    ensures
        0 <= spec_months_elapsed(staked_at, now) <= max_months(),
{
    if now > staked_at {
        lemma_div_is_ordered(now - staked_at, i64::MAX as int, MONTH_SECONDS as int);
    }
}

/// Whole fixed months elapsed since `staked_at`, truncated toward zero and
/// clamped at zero when the clock has not advanced past `staked_at`.
pub fn months_elapsed(staked_at: i64, now: i64) -> (months: u64)
    requires
        0 <= staked_at,
        0 <= now,
    ensures
        months == spec_months_elapsed(staked_at as int, now as int),
{
    if now <= staked_at {
        0
    } else {
        let delta: u64 = (now - staked_at) as u64;
        delta / (MONTH_SECONDS as u64)
    }
}

/// Any representable month count is far below this round bound.
pub proof fn lemma_max_months_small()
    ensures
        max_months() < 3600000000000,
{
    vstd::arithmetic::div_mod::lemma_multiply_divide_lt(
        i64::MAX as int,
        MONTH_SECONDS as int,
        3600000000000,
    );
}

/// The reward is never negative.
pub proof fn lemma_reward_nonneg(amount_staked: int, months: int)
    requires
        0 <= amount_staked,
        0 <= months,
    ensures
        0 <= spec_reward(amount_staked, months),
{
    vstd::arithmetic::mul::lemma_mul_nonnegative(amount_staked, MONTHLY_RATE_NUMER as int);
    vstd::arithmetic::mul::lemma_mul_nonnegative(
        amount_staked * (MONTHLY_RATE_NUMER as int),
        months,
    );
    vstd::arithmetic::div_mod::lemma_div_pos_is_pos(
        amount_staked * (MONTHLY_RATE_NUMER as int) * months,
        MONTHLY_RATE_DENOM as int,
    );
}

/// The accrued reward in full precision: for any stake and any
/// representable month count the 128-bit result is the exact mathematical
/// value.
pub fn reward_amount_exact(amount_staked: u64, months: u64) -> (reward: u128)
    requires
        months <= max_months(),
    ensures
        reward == spec_reward(amount_staked as int, months as int),
{
    proof {
        lemma_max_months_small();
        assert((amount_staked as int) * (MONTHLY_RATE_NUMER as int) * (months as int) <= u128::MAX
            as int) by (nonlinear_arith)
            requires
                amount_staked <= u64::MAX,
                0 <= months < 3600000000000,
        ;
    }
    let numerator: u128 = amount_staked as u128 * (MONTHLY_RATE_NUMER as u128) * (months as u128);
    numerator / (MONTHLY_RATE_DENOM as u128)
}

/// The accrued reward for `amount_staked` over `months` whole months,
/// computed in exact fixed point and saturated at `u64::MAX` where the
/// mathematical value does not fit the word.
pub fn reward_amount(amount_staked: u64, months: u64) -> (reward: u64)
    requires
        months <= max_months(),
    ensures
        spec_reward(amount_staked as int, months as int) <= u64::MAX as int ==> reward
            == spec_reward(amount_staked as int, months as int),
        spec_reward(amount_staked as int, months as int) > u64::MAX as int ==> reward == u64::MAX,
{
    let wide = reward_amount_exact(amount_staked, months);
    if wide > u64::MAX as u128 {
        u64::MAX
    } else {
        wide as u64
    }
}

/// The reward accrual calculator: months elapsed and the accrued reward for
/// a position, from the stake amount, the accrual clock, and the current
/// time alone.
pub fn accrue(amount_staked: u64, staked_at: i64, now: i64) -> (r: (u64, u64))
    requires
        0 <= staked_at,
        0 <= now,
    ensures
        r.0 == spec_months_elapsed(staked_at as int, now as int),
        spec_reward(amount_staked as int, r.0 as int) <= u64::MAX as int ==> r.1 == spec_reward(
            amount_staked as int,
            r.0 as int,
        ),
        spec_reward(amount_staked as int, r.0 as int) > u64::MAX as int ==> r.1 == u64::MAX,
{
    let months = months_elapsed(staked_at, now);
    proof {
        lemma_months_elapsed_bounds(staked_at as int, now as int);
    }
    let reward = reward_amount(amount_staked, months);
    (months, reward)
}

} // verus!
