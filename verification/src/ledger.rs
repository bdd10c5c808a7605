//! The two persisted record kinds and their mathematics.
//!
//! `Pool` is the one shared aggregate record; `UserAccount` is one
//! participant's position. The module also defines the two spec functions
//! the engine's invariant and contracts are written over: the sum of all
//! staked amounts, and the index of the position a given owner holds.

use crate::reward::MAX_TIMESTAMP;
use vstd::prelude::*;

verus! {

/// The shared pool record.
///
/// `total_staked` is, at all times, the sum of every position's
/// `amount_staked`; `total_rewards` is the reserve earmarked to pay rewards,
/// funded through `initialize` and drawn down on reserve-tiering payouts.
#[derive(Clone, Copy, Debug, PartialEq, Eq)]
pub struct Pool {
    pub total_staked: u64,
    pub total_rewards: u64,
}

/// One participant's staking position.
///
/// `staked_at` is the accrual clock: it restarts on every deposit.
/// `last_withdraw_at` is 0 (the sentinel for "never") until the first
/// withdrawal, and monotonically non-decreasing afterwards.
#[derive(Clone, Copy, Debug, PartialEq, Eq)]
pub struct UserAccount {
    pub owner: u64,
    pub amount_staked: u64,
    pub staked_at: i64,
    pub last_withdraw_at: i64,
}

impl UserAccount {
    /// Stored timestamps are non-negative and leave a year of headroom at
    /// the top of the `i64` range, so cooldown and full-unlock deadlines
    /// never overflow.
    pub open spec fn wf(self) -> bool {
        &&& 0 <= self.staked_at <= MAX_TIMESTAMP
        &&& 0 <= self.last_withdraw_at <= MAX_TIMESTAMP
    }
}

/// Sum of the staked amounts over a sequence of positions.
pub open spec fn total_of(s: Seq<UserAccount>) -> int
    decreases s.len(),
{
    if s.len() == 0 {
        0
    } else {
        total_of(s.drop_last()) + s.last().amount_staked
    }
}

/// Index of the first position owned by `owner`, or -1 where none is.
pub open spec fn find_owner(s: Seq<UserAccount>, owner: u64) -> int
    decreases s.len(),
{
    if s.len() == 0 {
        -1
    } else if s[0].owner == owner {
        0
    } else {
        let r = find_owner(s.subrange(1, s.len() as int), owner);
        if r == -1 {
            -1
        } else {
            r + 1
        }
    }
}

pub proof fn lemma_total_of_nonneg(s: Seq<UserAccount>)
    ensures
        0 <= total_of(s),
    decreases s.len(),
{
    if s.len() > 0 {
        lemma_total_of_nonneg(s.drop_last());
    }
}

/// No single position stakes more than the sum over all of them.
pub proof fn lemma_total_of_bound(s: Seq<UserAccount>, k: int)
    requires
        0 <= k < s.len(),
    ensures
        s[k].amount_staked as int <= total_of(s),
    decreases s.len(),
{
    if k == s.len() - 1 {
        lemma_total_of_nonneg(s.drop_last());
    } else {
        lemma_total_of_bound(s.drop_last(), k);
    }
}

/// Replacing one position changes the sum by the difference of the staked
/// amounts.
pub proof fn lemma_total_of_update(s: Seq<UserAccount>, k: int, p: UserAccount)
    requires
        0 <= k < s.len(),
    ensures
        total_of(s.update(k, p)) == total_of(s) - s[k].amount_staked + p.amount_staked,
    decreases s.len(),
{
    let t = s.update(k, p);
    if k == s.len() - 1 {
        assert(t.drop_last() =~= s.drop_last());
    } else {
        lemma_total_of_update(s.drop_last(), k, p);
        assert(t.drop_last() =~= s.drop_last().update(k, p));
    }
}

/// Appending a position adds its staked amount to the sum.
pub proof fn lemma_total_of_push(s: Seq<UserAccount>, p: UserAccount)
    ensures
        total_of(s.push(p)) == total_of(s) + p.amount_staked,
{
    assert(s.push(p).drop_last() =~= s);
}

pub proof fn lemma_find_owner_properties(s: Seq<UserAccount>, owner: u64)
    ensures
        find_owner(s, owner) == -1 ==> forall|i: int| 0 <= i < s.len() ==> s[i].owner != owner,
        find_owner(s, owner) != -1 ==> 0 <= find_owner(s, owner) < s.len() && s[find_owner(
            s,
            owner,
        )].owner == owner,
    decreases s.len(),
{
    if s.len() > 0 && s[0].owner != owner {
        let sub = s.subrange(1, s.len() as int);
        lemma_find_owner_properties(sub, owner);
        if find_owner(s, owner) == -1 {
            assert forall|i: int| 0 <= i < s.len() implies s[i].owner != owner by {
                if i > 0 {
                    assert(s[i] == sub[i - 1]);
                }
            }
        }
    }
}

/// A position at `k` whose owner matches, behind a prefix of non-matching
/// owners, is the one `find_owner` names.
pub proof fn lemma_find_owner_at(s: Seq<UserAccount>, owner: u64, k: int)
    requires
        0 <= k < s.len(),
        s[k].owner == owner,
        forall|i: int| 0 <= i < k ==> s[i].owner != owner,
    ensures
        find_owner(s, owner) == k,
    decreases s.len(),
{
    if k > 0 {
        lemma_find_owner_at(s.subrange(1, s.len() as int), owner, k - 1);
    }
}

/// Where no position's owner matches, `find_owner` reports -1.
pub proof fn lemma_find_owner_none(s: Seq<UserAccount>, owner: u64)
    requires
        forall|i: int| 0 <= i < s.len() ==> s[i].owner != owner,
    ensures
        find_owner(s, owner) == -1,
    decreases s.len(),
{
    if s.len() > 0 {
        lemma_find_owner_none(s.subrange(1, s.len() as int), owner);
    }
}

} // verus!
