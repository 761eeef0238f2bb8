//! Lock-period staking lifecycle.
//!
//! A staking pool holds, per lock tier, an unbonding duration and a
//! reward multiplier, together with a minimum stake, running totals and
//! an emergency-pause flag. Each depositor owns at most one position in
//! the pool; a position moves one way through
//! staked -> unbonding -> withdrawn, where withdrawal removes the
//! record. The pool's totals always equal the sum and the count of the
//! live positions.
//!
//! Token custody is the host's concern: `stake_tokens` succeeds only
//! together with a deposit of `amount` into the pool's custody, and the
//! two withdrawal operations return the amount the host must pay back
//! out. The host reads the ledger clock once per operation and passes
//! it in as `now`.

use vstd::prelude::*;

verus! {

/// The fixed lock tiers, named for their nominal unbonding length.
#[derive(Clone, Copy, PartialEq, Eq, Structural, Debug)]
pub enum LockPeriod {
    Days7,
    Days14,
    Days30,
}

/// Failures of the staking-pool operations. Every failure leaves the
/// pool unchanged.
#[derive(Clone, Copy, PartialEq, Eq, Structural, Debug)]
pub enum ErrorCode {
    /// The pool's emergency-pause flag is set.
    PoolPaused,
    /// Emergency withdrawal was asked of a pool that is not paused.
    PoolNotPaused,
    /// The staked amount is below the pool's minimum (a zero amount is
    /// below any minimum).
    BelowMinimum,
    /// The depositor already holds a position in this pool.
    AlreadyInitialized,
    /// The position is already unbonding.
    AlreadyUnbonding,
    /// The position has not begun unbonding.
    NotUnbonding,
    /// The unbonding period has not elapsed yet.
    UnbondingIncomplete,
    /// No position exists for this depositor.
    PositionNotFound,
}

/// One depositor's locked balance within a pool. The tier, the
/// multiplier and the unbonding deadline are captured at stake time and
/// never recomputed.
#[derive(Clone, Copy, PartialEq, Eq, Structural, Debug)]
pub struct StakePosition {
    /// The owning depositor.
    pub user: u64,
    /// The locked amount; positive until the position is withdrawn.
    pub amount: u64,
    /// The lock tier chosen at stake time.
    pub lock_period: LockPeriod,
    /// The tier's reward multiplier as of stake time.
    pub reward_multiplier: u64,
    /// The ledger tick at which the stake was made.
    pub stake_timestamp: u64,
    /// The ledger tick from which withdrawal is allowed; fixed at
    /// stake time as the stake tick plus the tier's duration.
    pub unbonding_end: u64,
    /// Whether the position has begun unbonding.
    pub is_unbonding: bool,
}

/// The sum of the locked amounts of a sequence of positions.
pub open spec fn total_amounts(positions: Seq<StakePosition>) -> int
    decreases positions.len(),
{
    if positions.len() == 0 {
        0
    } else {
        positions[0].amount + total_amounts(positions.drop_first())
    }
}

/// The index of `user`'s position; meaningful only where one exists
/// and the users are distinct.
pub open spec fn index_of_user(positions: Seq<StakePosition>, user: u64) -> int {
    choose|i: int| 0 <= i < positions.len() && #[trigger] positions[i].user == user
}

proof fn lemma_total_nonneg(s: Seq<StakePosition>)
    ensures
        total_amounts(s) >= 0,
    decreases s.len(),
{
    if s.len() > 0 {
        lemma_total_nonneg(s.drop_first());
    }
}

proof fn lemma_total_push(s: Seq<StakePosition>, p: StakePosition)
    ensures
        total_amounts(s.push(p)) == total_amounts(s) + p.amount,
    decreases s.len(),
{
    if s.len() == 0 {
        assert(s.push(p)[0] == p);
        assert(total_amounts(Seq::<StakePosition>::empty()) == 0);
        assert(s.push(p).drop_first() =~= Seq::<StakePosition>::empty());
    } else {
        assert(s.push(p)[0] == s[0]);
        assert(s.push(p).drop_first() =~= s.drop_first().push(p));
        lemma_total_push(s.drop_first(), p);
    }
}

proof fn lemma_total_remove(s: Seq<StakePosition>, i: int)
    requires
        0 <= i < s.len(),
    ensures
        total_amounts(s.remove(i)) == total_amounts(s) - s[i].amount,
    decreases i,
{
    if i == 0 {
        assert(s.remove(0) =~= s.drop_first());
    } else {
        assert(s.remove(i).drop_first() =~= s.drop_first().remove(i - 1));
        lemma_total_remove(s.drop_first(), i - 1);
    }
}

proof fn lemma_total_update(s: Seq<StakePosition>, i: int, p: StakePosition)
    requires
        0 <= i < s.len(),
    ensures
        total_amounts(s.update(i, p)) == total_amounts(s) - s[i].amount + p.amount,
    decreases i,
{
    if i == 0 {
        assert(s.update(0, p).drop_first() =~= s.drop_first());
    } else {
        assert(s.update(i, p).drop_first() =~= s.drop_first().update(i - 1, p));
        lemma_total_update(s.drop_first(), i - 1, p);
    }
}

proof fn lemma_element_le_total(s: Seq<StakePosition>, i: int)
    requires
        0 <= i < s.len(),
    ensures
        s[i].amount <= total_amounts(s),
    decreases i,
{
    lemma_total_nonneg(s.drop_first());
    if i > 0 {
        lemma_element_le_total(s.drop_first(), i - 1);
    }
}

/// Under distinct users, the index found for `user` is the one and
/// only index holding it.
proof fn lemma_index_of_user_unique(s: Seq<StakePosition>, i: int, user: u64)
    requires
        forall|p: int, q: int| 0 <= p < q < s.len() ==> s[p].user != s[q].user,
        0 <= i < s.len(),
        s[i].user == user,
    ensures
        index_of_user(s, user) == i,
{
    assert(0 <= i < s.len() && s[i].user == user);
    let j = index_of_user(s, user);
    if j != i {
        if j < i {
            assert(s[j].user != s[i].user);
        } else {
            assert(s[i].user != s[j].user);
        }
    }
}

/// The shared configuration-and-totals record of one asset's staking
/// program, together with the live positions it owns.
pub struct StakingPool {
    /// Unbonding duration, in ledger ticks, of the short tier.
    pub unbonding_period_7: u64,
    /// Unbonding duration, in ledger ticks, of the medium tier.
    pub unbonding_period_14: u64,
    /// Unbonding duration, in ledger ticks, of the long tier.
    pub unbonding_period_30: u64,
    /// Reward multiplier of the short tier.
    pub reward_multiplier_7: u64,
    /// Reward multiplier of the medium tier.
    pub reward_multiplier_14: u64,
    /// Reward multiplier of the long tier.
    pub reward_multiplier_30: u64,
    /// The smallest amount a stake may lock.
    pub min_stake_amount: u64,
    /// Sum of the amounts of all live positions.
    pub total_staked: u64,
    /// Count of all live positions.
    pub total_stakers: u64,
    /// The emergency-pause flag.
    pub emergency_pause: bool,
    /// The live (not yet withdrawn) positions, one per depositor.
    pub positions: Vec<StakePosition>,
}

impl StakingPool {
    /// The unbonding duration of a tier.
    pub open spec fn spec_duration(&self, lock_period: LockPeriod) -> u64 {
        match lock_period {
            LockPeriod::Days7 => self.unbonding_period_7,
            LockPeriod::Days14 => self.unbonding_period_14,
            LockPeriod::Days30 => self.unbonding_period_30,
        }
    }

    /// The reward multiplier of a tier.
    pub open spec fn spec_multiplier(&self, lock_period: LockPeriod) -> u64 {
        match lock_period {
            LockPeriod::Days7 => self.reward_multiplier_7,
            LockPeriod::Days14 => self.reward_multiplier_14,
            LockPeriod::Days30 => self.reward_multiplier_30,
        }
    }

    /// Whether `user` holds a live position in this pool.
    pub open spec fn has_position(&self, user: u64) -> bool {
        exists|i: int| 0 <= i < self.positions@.len() && #[trigger] self.positions@[i].user
            == user
    }

    /// The live position of `user`; meaningful only where one exists.
    pub open spec fn position_for(&self, user: u64) -> StakePosition
        recommends
            self.has_position(user),
    {
        self.positions@[index_of_user(self.positions@, user)]
    }

    /// No two live positions belong to the same depositor.
    pub open spec fn users_distinct(&self) -> bool {
        forall|i: int, j: int|
            0 <= i < j < self.positions@.len() ==> self.positions@[i].user
                != self.positions@[j].user
    }

    /// The pool's invariant: every live position locks a positive
    /// amount, each depositor holds at most one, `total_staked` is the
    /// sum of the live amounts and `total_stakers` their count.
    pub open spec fn well_formed(&self) -> bool {
        &&& self.users_distinct()
        &&& forall|i: int|
            0 <= i < self.positions@.len() ==> #[trigger] self.positions@[i].amount > 0
        &&& self.total_staked == total_amounts(self.positions@)
        &&& self.total_stakers == self.positions@.len()
    }

    /// The per-tier configuration and the minimum stake, which no
    /// operation ever changes.
    pub open spec fn same_config(&self, other: &StakingPool) -> bool {
        &&& self.unbonding_period_7 == other.unbonding_period_7
        &&& self.unbonding_period_14 == other.unbonding_period_14
        &&& self.unbonding_period_30 == other.unbonding_period_30
        &&& self.reward_multiplier_7 == other.reward_multiplier_7
        &&& self.reward_multiplier_14 == other.reward_multiplier_14
        &&& self.reward_multiplier_30 == other.reward_multiplier_30
        &&& self.min_stake_amount == other.min_stake_amount
    }

    /// Creates the pool record with the given tier durations and
    /// multipliers, all totals zeroed, no positions and the pause flag
    /// clear. Whether the pool's deterministic identity already exists
    /// is the host's record addressing to check.
    pub fn initialize_staking_pool(
        unbonding_period_7: u64,
        unbonding_period_14: u64,
        unbonding_period_30: u64,
        reward_multiplier_7: u64,
        reward_multiplier_14: u64,
        reward_multiplier_30: u64,
        min_stake_amount: u64,
    ) -> (pool: StakingPool)
        ensures
            pool.well_formed(),
            pool.unbonding_period_7 == unbonding_period_7,
            pool.unbonding_period_14 == unbonding_period_14,
            pool.unbonding_period_30 == unbonding_period_30,
            pool.reward_multiplier_7 == reward_multiplier_7,
            pool.reward_multiplier_14 == reward_multiplier_14,
            pool.reward_multiplier_30 == reward_multiplier_30,
            pool.min_stake_amount == min_stake_amount,
            pool.total_staked == 0,
            pool.total_stakers == 0,
            !pool.emergency_pause,
            pool.positions@.len() == 0,
    {
        StakingPool {
            unbonding_period_7,
            unbonding_period_14,
            unbonding_period_30,
            reward_multiplier_7,
            reward_multiplier_14,
            reward_multiplier_30,
            min_stake_amount,
            total_staked: 0,
            total_stakers: 0,
            emergency_pause: false,
            positions: Vec::new(),
        }
    }

    /// The unbonding duration configured for a tier.
    pub fn duration_for(&self, lock_period: LockPeriod) -> (d: u64)
        ensures
            d == self.spec_duration(lock_period),
    {
        match lock_period {
            LockPeriod::Days7 => self.unbonding_period_7,
            LockPeriod::Days14 => self.unbonding_period_14,
            LockPeriod::Days30 => self.unbonding_period_30,
        }
    }

    /// The reward multiplier configured for a tier.
    pub fn multiplier_for(&self, lock_period: LockPeriod) -> (m: u64)
        ensures
            m == self.spec_multiplier(lock_period),
    {
        match lock_period {
            LockPeriod::Days7 => self.reward_multiplier_7,
            LockPeriod::Days14 => self.reward_multiplier_14,
            LockPeriod::Days30 => self.reward_multiplier_30,
        }
    }

    /// Looks up the index of `user`'s live position.
    fn find_position(&self, user: u64) -> (idx: Option<usize>)
        ensures
            match idx {
                Some(i) => i < self.positions@.len() && self.positions@[i as int].user == user,
                None => !self.has_position(user),
            },
    {
        let mut i: usize = 0;
        while i < self.positions.len()
            invariant
                i <= self.positions@.len(),
                forall|j: int| 0 <= j < i ==> self.positions@[j].user != user,
            decreases self.positions@.len() - i,
        {
            if self.positions[i].user == user {
                return Some(i);
            }
            i = i + 1;
        }
        None
    }

    /// The live position of `user`, if any.
    pub fn get_position(&self, user: u64) -> (position: Option<&StakePosition>)
        requires
            self.well_formed(),
        ensures
            match position {
                Some(p) => self.has_position(user) && *p == self.position_for(user),
                None => !self.has_position(user),
            },
    {
        match self.find_position(user) {
            Some(i) => {
                proof {
                    lemma_index_of_user_unique(self.positions@, i as int, user);
                }
                Some(&self.positions[i])
            },
            None => None,
        }
    }

    /// Locks `amount` for `user` at tier `lock_period`, at ledger tick
    /// `now`. On success the host must move `amount` into the pool's
    /// custody atomically with this transition; the new position
    /// captures the tier's multiplier and its unbonding deadline
    /// `now + duration`, and the totals grow accordingly. Fails if the
    /// pool is paused, the amount is below the minimum (or zero), or
    /// the depositor already holds a position.
    pub fn stake_tokens(
        &mut self,
        user: u64,
        amount: u64,
        lock_period: LockPeriod,
        now: u64,
    ) -> (r: Result<(), ErrorCode>)
        requires
            old(self).well_formed(),
            old(self).total_staked + amount <= u64::MAX,
            old(self).total_stakers + 1 <= u64::MAX,
            now + old(self).spec_duration(lock_period) <= u64::MAX,
        ensures
            final(self).well_formed(),
            final(self).same_config(old(self)),
            final(self).emergency_pause == old(self).emergency_pause,
            r is Ok <==> (!old(self).emergency_pause && amount >= old(self).min_stake_amount
                && amount > 0 && !old(self).has_position(user)),
            r is Err ==> *final(self) == *old(self),
            r matches Err(e) ==> e == (if old(self).emergency_pause {
                ErrorCode::PoolPaused
            } else if amount < old(self).min_stake_amount || amount == 0 {
                ErrorCode::BelowMinimum
            } else {
                ErrorCode::AlreadyInitialized
            }),
            r is Ok ==> final(self).positions@ == old(self).positions@.push(
                (StakePosition {
                    user,
                    amount,
                    lock_period,
                    reward_multiplier: old(self).spec_multiplier(lock_period),
                    stake_timestamp: now,
                    unbonding_end: (now + old(self).spec_duration(lock_period)) as u64,
                    is_unbonding: false,
                }),
            ),
            r is Ok ==> final(self).total_staked == old(self).total_staked + amount
                && final(self).total_stakers == old(self).total_stakers + 1,
            r is Ok ==> final(self).has_position(user) && final(self).position_for(user) == (
            StakePosition {
                user,
                amount,
                lock_period,
                reward_multiplier: old(self).spec_multiplier(lock_period),
                stake_timestamp: now,
                unbonding_end: (now + old(self).spec_duration(lock_period)) as u64,
                is_unbonding: false,
            }),
    {
        if self.emergency_pause {
            return Err(ErrorCode::PoolPaused);
        }
        if amount < self.min_stake_amount || amount == 0 {
            return Err(ErrorCode::BelowMinimum);
        }
        match self.find_position(user) {
            Some(_) => Err(ErrorCode::AlreadyInitialized),
            None => {
                let duration = self.duration_for(lock_period);
                let multiplier = self.multiplier_for(lock_period);
                let position = StakePosition {
                    user,
                    amount,
                    lock_period,
                    reward_multiplier: multiplier,
                    stake_timestamp: now,
                    unbonding_end: now + duration,
                    is_unbonding: false,
                };
                proof {
                    lemma_total_push(self.positions@, position);
                }
                self.positions.push(position);
                self.total_staked = self.total_staked + amount;
                self.total_stakers = self.total_stakers + 1;
                proof {
                    assert(self.positions@[self.positions@.len() - 1].user == user);
                    assert(self.users_distinct());
                    lemma_index_of_user_unique(
                        self.positions@,
                        self.positions@.len() - 1,
                        user,
                    );
                }
                Ok(())
            },
        }
    }

    /// Moves `user`'s position from staked to unbonding. The unbonding
    /// deadline was fixed at stake time and is not recomputed. Fails if
    /// no position exists, the pool is paused, or the position is
    /// already unbonding.
    pub fn initiate_unstake(&mut self, user: u64) -> (r: Result<(), ErrorCode>)
        requires
            old(self).well_formed(),
        ensures
            final(self).well_formed(),
            final(self).same_config(old(self)),
            final(self).emergency_pause == old(self).emergency_pause,
            final(self).total_staked == old(self).total_staked,
            final(self).total_stakers == old(self).total_stakers,
            r is Ok <==> (old(self).has_position(user) && !old(self).emergency_pause
                && !old(self).position_for(user).is_unbonding),
            r is Err ==> *final(self) == *old(self),
            r matches Err(e) ==> e == (if !old(self).has_position(user) {
                ErrorCode::PositionNotFound
            } else if old(self).emergency_pause {
                ErrorCode::PoolPaused
            } else {
                ErrorCode::AlreadyUnbonding
            }),
            r is Ok ==> ({
                let i = index_of_user(old(self).positions@, user);
                final(self).positions@ == old(self).positions@.update(
                    i,
                    (StakePosition { is_unbonding: true, ..old(self).positions@[i] }),
                )
            }),
            r is Ok ==> final(self).has_position(user) && final(self).position_for(user) == (
            StakePosition { is_unbonding: true, ..old(self).position_for(user) }),
    {
        match self.find_position(user) {
            None => Err(ErrorCode::PositionNotFound),
            Some(i) => {
                if self.emergency_pause {
                    return Err(ErrorCode::PoolPaused);
                }
                proof {
                    lemma_index_of_user_unique(self.positions@, i as int, user);
                }
                if self.positions[i].is_unbonding {
                    return Err(ErrorCode::AlreadyUnbonding);
                }
                proof {
                    let updated = StakePosition {
                        is_unbonding: true,
                        ..self.positions@[i as int]
                    };
                    lemma_total_update(self.positions@, i as int, updated);
                }
                self.positions[i].is_unbonding = true;
                proof {
                    assert(self.positions@[i as int].user == user);
                    assert(self.users_distinct());
                    lemma_index_of_user_unique(self.positions@, i as int, user);
                }
                Ok(())
            },
        }
    }

    /// Withdraws `user`'s position once its unbonding period has
    /// elapsed: returns the locked amount, which the host must pay back
    /// to the depositor atomically with this transition, removes the
    /// position and shrinks the totals. Fails if no position exists,
    /// the position never began unbonding, or `now` is before the
    /// deadline.
    pub fn complete_unstake(&mut self, user: u64, now: u64) -> (r: Result<u64, ErrorCode>)
        requires
            old(self).well_formed(),
        ensures
            final(self).well_formed(),
            final(self).same_config(old(self)),
            final(self).emergency_pause == old(self).emergency_pause,
            r is Ok <==> (old(self).has_position(user) && old(self).position_for(user).is_unbonding
                && now >= old(self).position_for(user).unbonding_end),
            r is Err ==> *final(self) == *old(self),
            r matches Err(e) ==> e == (if !old(self).has_position(user) {
                ErrorCode::PositionNotFound
            } else if !old(self).position_for(user).is_unbonding {
                ErrorCode::NotUnbonding
            } else {
                ErrorCode::UnbondingIncomplete
            }),
            r is Ok ==> !final(self).has_position(user),
            r matches Ok(returned) ==> returned == old(self).position_for(user).amount
                && final(self).positions@ == old(self).positions@.remove(
                index_of_user(old(self).positions@, user),
            ) && final(self).total_staked == old(self).total_staked - returned
                && final(self).total_stakers == old(self).total_stakers - 1,
    {
        match self.find_position(user) {
            None => Err(ErrorCode::PositionNotFound),
            Some(i) => {
                proof {
                    lemma_index_of_user_unique(self.positions@, i as int, user);
                }
                if !self.positions[i].is_unbonding {
                    return Err(ErrorCode::NotUnbonding);
                }
                if now < self.positions[i].unbonding_end {
                    return Err(ErrorCode::UnbondingIncomplete);
                }
                self.withdraw_at(i)
            },
        }
    }

    /// Withdraws `user`'s position immediately, bypassing the unbonding
    /// clock: allowed from either live state, but only while the pool's
    /// pause flag is set. Returns the amount the host must pay back to
    /// the depositor. Fails if no position exists or the pool is not
    /// paused.
    pub fn emergency_withdraw(&mut self, user: u64) -> (r: Result<u64, ErrorCode>)
        requires
            old(self).well_formed(),
        ensures
            final(self).well_formed(),
            final(self).same_config(old(self)),
            final(self).emergency_pause == old(self).emergency_pause,
            r is Ok <==> (old(self).has_position(user) && old(self).emergency_pause),
            r is Err ==> *final(self) == *old(self),
            r matches Err(e) ==> e == (if !old(self).has_position(user) {
                ErrorCode::PositionNotFound
            } else {
                ErrorCode::PoolNotPaused
            }),
            r is Ok ==> !final(self).has_position(user),
            r matches Ok(returned) ==> returned == old(self).position_for(user).amount
                && final(self).positions@ == old(self).positions@.remove(
                index_of_user(old(self).positions@, user),
            ) && final(self).total_staked == old(self).total_staked - returned
                && final(self).total_stakers == old(self).total_stakers - 1,
    {
        match self.find_position(user) {
            None => Err(ErrorCode::PositionNotFound),
            Some(i) => {
                if !self.emergency_pause {
                    return Err(ErrorCode::PoolNotPaused);
                }
                proof {
                    lemma_index_of_user_unique(self.positions@, i as int, user);
                }
                self.withdraw_at(i)
            },
        }
    }

    /// Removes the position at `i` and shrinks the totals by its
    /// amount and by one staker.
    fn withdraw_at(&mut self, i: usize) -> (r: Result<u64, ErrorCode>)
        requires
            old(self).well_formed(),
            i < old(self).positions@.len(),
        ensures
            final(self).well_formed(),
            final(self).same_config(old(self)),
            final(self).emergency_pause == old(self).emergency_pause,
            r == Ok::<u64, ErrorCode>(old(self).positions@[i as int].amount),
            final(self).positions@ == old(self).positions@.remove(i as int),
            forall|j: int|
                0 <= j < final(self).positions@.len() ==> #[trigger] final(self).positions@[j].user
                    != old(self).positions@[i as int].user,
            final(self).total_staked == old(self).total_staked - old(self).positions@[
                i as int].amount,
            final(self).total_stakers == old(self).total_stakers - 1,
    {
        proof {
            lemma_element_le_total(self.positions@, i as int);
            lemma_total_remove(self.positions@, i as int);
            assert forall|j: int|
                0 <= j < self.positions@.remove(i as int).len() implies #[trigger] self.positions@.remove(
                i as int,
            )[j].user != self.positions@[i as int].user by {
                if j < i {
                    assert(self.positions@.remove(i as int)[j] == self.positions@[j]);
                } else {
                    assert(self.positions@.remove(i as int)[j] == self.positions@[j + 1]);
                }
            }
        }
        let position = self.positions.remove(i);
        self.total_staked = self.total_staked - position.amount;
        self.total_stakers = self.total_stakers - 1;
        Ok(position.amount)
    }

    /// Sets the emergency-pause flag; no other effect.
    pub fn toggle_emergency_pause(&mut self, pause: bool)
        requires
            old(self).well_formed(),
        ensures
            final(self).well_formed(),
            final(self).same_config(old(self)),
            final(self).emergency_pause == pause,
            final(self).positions@ == old(self).positions@,
            final(self).total_staked == old(self).total_staked,
            final(self).total_stakers == old(self).total_stakers,
    {
        self.emergency_pause = pause;
    }
}

} // verus!
