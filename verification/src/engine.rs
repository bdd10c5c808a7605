//! The staking engine: the orchestrator over the pool record, the
//! positions, and the withdrawal policy.
//!
//! The engine owns the persistent store: the one shared `Pool` record and
//! one `UserAccount` per distinct owner. It exposes exactly three
//! operations — `initialize`, `deposit`, `withdraw` — and each either
//! mutates the ledger in full and returns the paired custody transfer
//! request, or fails with one error kind and leaves every record unchanged.
//!
//! The central invariant, kept by construction: the pool's `total_staked`
//! equals the sum of all positions' `amount_staked`.

use crate::custody::Authority;
use crate::custody::TransferRequest;
use crate::custody::VaultRef;
use crate::errors::CustomError;
use crate::ledger::find_owner;
use crate::ledger::lemma_find_owner_at;
use crate::ledger::lemma_find_owner_none;
use crate::ledger::lemma_find_owner_properties;
use crate::ledger::lemma_total_of_bound;
use crate::ledger::lemma_total_of_push;
use crate::ledger::lemma_total_of_update;
use crate::ledger::total_of;
use crate::ledger::Pool;
use crate::ledger::UserAccount;
use crate::policy::evaluate_withdrawal;
use crate::policy::plan_applies;
use crate::policy::spec_withdrawal_outcome;
use crate::policy::TieringStrategy;
use crate::reward::lemma_max_months_small;
use crate::reward::lemma_months_elapsed_bounds;
use crate::reward::lemma_reward_nonneg;
use crate::reward::months_elapsed;
use crate::reward::reward_amount_exact;
use crate::reward::MAX_TIMESTAMP;
use crate::reward::MONTH_SECONDS;
use crate::reward::YEAR_SECONDS;
use vstd::arithmetic::div_mod::lemma_multiply_divide_le;
use vstd::prelude::*;

verus! {

/// The engine's persistent store and its configured tiering strategy.
#[derive(Clone)]
pub struct StakingEngine {
    pub pool: Pool,
    pub positions: Vec<UserAccount>,
    pub strategy: TieringStrategy,
}

impl StakingEngine {
    /// The ledger invariant, kept by every operation:
    /// - the pool's `total_staked` is the sum of all positions' stakes;
    /// - each owner holds at most one position;
    /// - every stored timestamp is in range.
    pub open spec fn wf(self) -> bool {
        &&& self.pool.total_staked as int == total_of(self.positions@)
        &&& forall|i: int, j: int|
            0 <= i < j < self.positions@.len() ==> self.positions@[i].owner
                != self.positions@[j].owner
        &&& forall|i: int| 0 <= i < self.positions@.len() ==> self.positions@[i].wf()
    }

    /// A fresh engine: empty pool, no positions, the given strategy.
    pub fn new(strategy: TieringStrategy) -> (engine: Self)
        ensures
            engine.wf(),
            engine.pool == (Pool { total_staked: 0, total_rewards: 0 }),
            engine.positions@.len() == 0,
            engine.strategy == strategy,
    {
        StakingEngine { pool: Pool { total_staked: 0, total_rewards: 0 }, positions: Vec::new(), strategy }
    }

    /// Index of the caller's position in the store, or `None` where the
    /// owner has never deposited.
    fn index_of(&self, owner: u64) -> (r: Option<usize>)
        ensures
            match r {
                Some(i) => i < self.positions@.len() && find_owner(self.positions@, owner)
                    == i as int,
                None => find_owner(self.positions@, owner) == -1,
            },
    {
        let mut i: usize = 0;
        while i < self.positions.len()
            invariant
                i <= self.positions@.len(),
                forall|j: int| 0 <= j < i ==> self.positions@[j].owner != owner,
            decreases self.positions@.len() - i,
        {
            if self.positions[i].owner == owner {
                proof {
                    lemma_find_owner_at(self.positions@, owner, i as int);
                }
                return Some(i);
            }
            i = i + 1;
        }
        proof {
            lemma_find_owner_none(self.positions@, owner);
        }
        None
    }

    /// The position `owner` holds, if any.
    pub fn position(&self, owner: u64) -> (r: Option<UserAccount>)
        ensures
            match r {
                Some(p) => find_owner(self.positions@, owner) >= 0 && p == self.positions@[
                    find_owner(self.positions@, owner)
                ],
                None => find_owner(self.positions@, owner) == -1,
            },
    {
        match self.index_of(owner) {
            Some(i) => Some(self.positions[i]),
            None => None,
        }
    }

    /// Funds the pool's reward reserve with `amount` from `funder`, against
    /// a custody transfer funder → pool vault under the funder's own
    /// authority. Fails with `InvalidAmount`, and changes nothing, exactly
    /// when `amount` is not positive. Repeated calls are permitted and each
    /// adds its funding (the permissive variant: the pool record exists from
    /// construction, so there is no "already initialized" state to refuse).
    pub fn initialize(&mut self, funder: u64, amount: u64) -> (r: Result<
        TransferRequest,
        CustomError,
    >)
        requires
            old(self).wf(),
            old(self).pool.total_rewards as int + amount as int <= u64::MAX as int,
        ensures
            final(self).wf(),
            final(self).strategy == old(self).strategy,
            amount == 0 ==> r == Result::<TransferRequest, CustomError>::Err(
                CustomError::InvalidAmount,
            ) && *final(self) == *old(self),
            amount > 0 ==> {
                &&& r == Result::<TransferRequest, CustomError>::Ok(
                    (TransferRequest {
                        from: VaultRef::UserVault(funder),
                        to: VaultRef::PoolVault,
                        amount: amount,
                        authority: Authority::UserSigner(funder),
                    }),
                )
                &&& final(self).pool.total_rewards == old(self).pool.total_rewards + amount
                &&& final(self).pool.total_staked == old(self).pool.total_staked
                &&& final(self).positions@ == old(self).positions@
            },
    {
        if amount == 0 {
            return Err(CustomError::InvalidAmount);
        }
        self.pool.total_rewards = self.pool.total_rewards + amount;
        Ok(
            TransferRequest {
                from: VaultRef::UserVault(funder),
                to: VaultRef::PoolVault,
                amount: amount,
                authority: Authority::UserSigner(funder),
            },
        )
    }

    /// Stakes `amount` for `owner` at time `now`, against a custody
    /// transfer owner → pool vault under the owner's authority. Fails with
    /// `InvalidAmount`, and changes nothing, exactly when `amount` is not
    /// positive. A first deposit creates the position; any deposit adds to
    /// the balance and resets the accrual clock to `now` for the whole
    /// balance (the documented behaviour: top-ups restart accrual).
    pub fn deposit(&mut self, owner: u64, amount: u64, now: i64) -> (r: Result<
        TransferRequest,
        CustomError,
    >)
        requires
            old(self).wf(),
            0 <= now <= MAX_TIMESTAMP,
            old(self).pool.total_staked as int + amount as int <= u64::MAX as int,
        ensures
            final(self).wf(),
            final(self).strategy == old(self).strategy,
            amount == 0 ==> r == Result::<TransferRequest, CustomError>::Err(
                CustomError::InvalidAmount,
            ) && *final(self) == *old(self),
            amount > 0 ==> {
                &&& r == Result::<TransferRequest, CustomError>::Ok(
                    (TransferRequest {
                        from: VaultRef::UserVault(owner),
                        to: VaultRef::PoolVault,
                        amount: amount,
                        authority: Authority::UserSigner(owner),
                    }),
                )
                &&& final(self).pool.total_staked == old(self).pool.total_staked + amount
                &&& final(self).pool.total_rewards == old(self).pool.total_rewards
                &&& find_owner(old(self).positions@, owner) == -1 ==> final(self).positions@
                    == old(self).positions@.push(
                    (UserAccount {
                        owner: owner,
                        amount_staked: amount,
                        staked_at: now,
                        last_withdraw_at: 0,
                    }),
                )
                &&& find_owner(old(self).positions@, owner) >= 0 ==> {
                    let k = find_owner(old(self).positions@, owner);
                    let p = old(self).positions@[k];
                    final(self).positions@ == old(self).positions@.update(
                        k,
                        (UserAccount {
                            amount_staked: (p.amount_staked + amount) as u64,
                            staked_at: now,
                            ..p
                        }),
                    )
                }
            },
    {
        if amount == 0 {
            return Err(CustomError::InvalidAmount);
        }
        match self.index_of(owner) {
            Some(i) => {
                let p = self.positions[i];
                proof {
                    lemma_total_of_bound(self.positions@, i as int);
                }
                let updated = UserAccount {
                    amount_staked: p.amount_staked + amount,
                    staked_at: now,
                    ..p
                };
                proof {
                    lemma_total_of_update(self.positions@, i as int, updated);
                }
                self.positions[i] = updated;
                self.pool.total_staked = self.pool.total_staked + amount;
            },
            None => {
                proof {
                    lemma_find_owner_properties(self.positions@, owner);
                }
                let fresh = UserAccount {
                    owner: owner,
                    amount_staked: amount,
                    staked_at: now,
                    last_withdraw_at: 0,
                };
                proof {
                    lemma_total_of_push(self.positions@, fresh);
                }
                self.positions.push(fresh);
                self.pool.total_staked = self.pool.total_staked + amount;
            },
        }
        Ok(
            TransferRequest {
                from: VaultRef::UserVault(owner),
                to: VaultRef::PoolVault,
                amount: amount,
                authority: Authority::UserSigner(owner),
            },
        )
    }

    /// Whether the withdrawal `owner` could attempt at `now` stays within
    /// machine bounds, i.e. meets the precondition of [`Self::withdraw`]:
    /// the payout fits a `u64` and the principal reduction does not exceed
    /// the position. The host checks this before calling `withdraw` and
    /// aborts a failing attempt wholesale.
    pub fn withdrawal_fits(&self, owner: u64, now: i64) -> (b: bool)
        requires
            self.wf(),
            0 <= now <= MAX_TIMESTAMP,
            find_owner(self.positions@, owner) >= 0,
        ensures
            b == plan_applies(
                self.positions@[find_owner(self.positions@, owner)],
                self.pool.total_rewards,
                now,
                self.strategy,
            ),
    {
        let i = self.index_of(owner).unwrap();
        let p = self.positions[i];
        if p.last_withdraw_at != 0 && now < p.last_withdraw_at + MONTH_SECONDS {
            return true;
        }
        let months = months_elapsed(p.staked_at, now);
        if months < 1 {
            return true;
        }
        proof {
            lemma_months_elapsed_bounds(p.staked_at as int, now as int);
            lemma_reward_nonneg(p.amount_staked as int, months as int);
        }
        let rw = reward_amount_exact(p.amount_staked, months);
        let staked = p.amount_staked;
        match self.strategy {
            TieringStrategy::ProportionalCap => {
                proof {
                    lemma_max_months_small();
                    assert((staked as int) * (months as int) <= u128::MAX as int)
                        by (nonlinear_arith)
                        requires
                            staked <= u64::MAX,
                            0 <= months < 3600000000000,
                    ;
                    vstd::arithmetic::mul::lemma_mul_nonnegative(staked as int, months as int);
                    vstd::arithmetic::div_mod::lemma_div_pos_is_pos(
                        (staked as int) * (months as int),
                        10,
                    );
                }
                if rw > u64::MAX as u128 {
                    // The payout includes the full reward, so it cannot fit
                    // the word either.
                    return false;
                }
                let scaled: u128 = (staked as u128) * (months as u128) / 10;
                let cap: u128 = if scaled < staked as u128 {
                    scaled
                } else {
                    staked as u128
                };
                let wide: u128 = cap + rw;
                wide == 0 || wide <= staked as u128
            },
            TieringStrategy::ReserveTiering => {
                if rw >= self.pool.total_rewards as u128 {
                    return true;
                }
                if now >= p.staked_at + YEAR_SECONDS {
                    let wide: u128 = staked as u128 + rw;
                    wide <= u64::MAX as u128
                } else {
                    proof {
                        lemma_multiply_divide_le(
                            staked as int + rw as int,
                            10,
                            u64::MAX as int,
                        );
                        lemma_multiply_divide_le(staked as int, 10, staked as int);
                    }
                    true
                }
            },
        }
    }

    /// Withdraws for `owner` at time `now` under the configured strategy.
    /// On success the payout leaves the pool vault for the owner's vault
    /// under the pool's own signer, the position and the pool aggregate
    /// shrink by the plan's principal reduction, the reserve by its reward
    /// reduction, and the cooldown clock is set to `now`. On failure the
    /// exact error of [`spec_withdrawal_outcome`] is reported and nothing
    /// changes.
    pub fn withdraw(&mut self, owner: u64, now: i64) -> (r: Result<TransferRequest, CustomError>)
        requires
            old(self).wf(),
            0 <= now <= MAX_TIMESTAMP,
            find_owner(old(self).positions@, owner) >= 0,
            plan_applies(
                old(self).positions@[find_owner(old(self).positions@, owner)],
                old(self).pool.total_rewards,
                now,
                old(self).strategy,
            ),
        ensures
            final(self).wf(),
            final(self).strategy == old(self).strategy,
            ({
                let k = find_owner(old(self).positions@, owner);
                let p = old(self).positions@[k];
                match spec_withdrawal_outcome(
                    p,
                    old(self).pool.total_rewards,
                    now,
                    old(self).strategy,
                ) {
                    Result::Err(e) => r == Result::<TransferRequest, CustomError>::Err(e)
                        && *final(self) == *old(self),
                    Result::Ok(amounts) => {
                        &&& r == Result::<TransferRequest, CustomError>::Ok(
                            (TransferRequest {
                                from: VaultRef::PoolVault,
                                to: VaultRef::UserVault(owner),
                                amount: amounts.0 as u64,
                                authority: Authority::PoolSigner,
                            }),
                        )
                        &&& final(self).positions@ == old(self).positions@.update(
                            k,
                            (UserAccount {
                                amount_staked: (p.amount_staked - amounts.1) as u64,
                                last_withdraw_at: now,
                                ..p
                            }),
                        )
                        &&& final(self).pool.total_staked as int == old(self).pool.total_staked
                            - amounts.1
                        &&& final(self).pool.total_rewards as int == old(self).pool.total_rewards
                            - amounts.2
                        &&& final(self).positions@[k].last_withdraw_at >= p.last_withdraw_at
                    },
                }
            }),
    {
        let i = self.index_of(owner).unwrap();
        let p = self.positions[i];
        match evaluate_withdrawal(&p, self.pool.total_rewards, now, self.strategy) {
            Err(e) => Err(e),
            Ok(plan) => {
                proof {
                    lemma_total_of_bound(self.positions@, i as int);
                }
                let updated = UserAccount {
                    amount_staked: p.amount_staked - plan.principal_reduce,
                    last_withdraw_at: now,
                    ..p
                };
                proof {
                    lemma_total_of_update(self.positions@, i as int, updated);
                }
                self.positions[i] = updated;
                self.pool.total_staked = self.pool.total_staked - plan.principal_reduce;
                self.pool.total_rewards = self.pool.total_rewards - plan.reward_reduce;
                Ok(
                    TransferRequest {
                        from: VaultRef::PoolVault,
                        to: VaultRef::UserVault(owner),
                        amount: plan.withdrawable,
                        authority: Authority::PoolSigner,
                    },
                )
            },
        }
    }
}

} // verus!
