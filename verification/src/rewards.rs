//! Yield pool and per-depositor yield settlement.
//!
//! A rewards pool carries an annualized rate held inside a configured
//! band, running totals and an emergency-pause flag. The rate moves
//! only through `update_apy_dynamic`, which applies the rate curve to
//! the aggregate deposited value. Each depositor's stake record tracks
//! the principal subject to accrual, the cumulative amount claimed and
//! the tick of the last settlement; claiming pays the accrued reward
//! out (the host must move it from the pool's custody), while
//! compounding folds it into the principal with no custody movement.

use crate::accrual::{accrued, calculate_rewards, elapsed_slots, lemma_accrued_zero,
    SLOTS_PER_YEAR};
use crate::rate::{calculate_dynamic_apy, dynamic_apy};
use vstd::prelude::*;

verus! {

/// Failures of the rewards-pool operations. Every failure leaves the
/// pool and the stake record unchanged.
#[derive(Clone, Copy, PartialEq, Eq, Structural, Debug)]
pub enum ErrorCode {
    /// The pool's emergency-pause flag is set.
    PoolPaused,
    /// The configured rates do not satisfy `min <= base <= max`.
    InvalidRange,
    /// The accrued reward is zero; there is nothing to pay out.
    NothingToClaim,
    /// The accrued reward is zero; there is nothing to reinvest.
    NothingToCompound,
    /// A computed value does not fit the 64-bit range.
    ArithmeticOverflow,
}

/// The shared rate-and-totals record of one asset's yield program.
#[derive(Clone, Copy, PartialEq, Eq, Structural, Debug)]
pub struct RewardsPool {
    /// The rate the pool was initialized with, in basis points. It
    /// seeds `current_apy` but does not participate in the rate curve.
    pub base_apy: u64,
    /// The rate currently in effect, in basis points.
    pub current_apy: u64,
    /// The lowest rate the curve may set.
    pub min_apy: u64,
    /// The highest rate the curve may set.
    pub max_apy: u64,
    /// A compounding-frequency hint for callers; not consulted here.
    pub compound_frequency: u64,
    /// Mirror of the aggregate staked value, maintained by the host.
    pub total_staked: u64,
    /// Sum of all rewards ever paid out by `claim_rewards`.
    pub total_rewards_distributed: u64,
    /// The emergency-pause flag.
    pub emergency_pause: bool,
    /// The ledger tick of the last rate update.
    pub last_update_slot: u64,
}

/// One depositor's record of principal under accrual and settled
/// claims.
#[derive(Clone, Copy, PartialEq, Eq, Structural, Debug)]
pub struct UserStake {
    /// The owning depositor.
    pub user: u64,
    /// The principal currently subject to accrual.
    pub staked_amount: u64,
    /// The cumulative amount claimed historically.
    pub total_rewards_claimed: u64,
    /// The ledger tick of the last settlement; only ever moves forward.
    pub last_claim_slot: u64,
}

impl UserStake {
    /// Creates the record that accompanies a depositor's first stake,
    /// with nothing claimed yet and the settlement clock at `now`.
    pub fn new(user: u64, staked_amount: u64, now: u64) -> (stake: UserStake)
        ensures
            stake == (UserStake { user, staked_amount, total_rewards_claimed: 0, last_claim_slot: now }),
    {
        UserStake { user, staked_amount, total_rewards_claimed: 0, last_claim_slot: now }
    }
}

impl RewardsPool {
    /// The pool's invariant: the current rate lies inside the band.
    pub open spec fn well_formed(&self) -> bool {
        self.min_apy <= self.current_apy <= self.max_apy
    }

    /// The reward owed to `stake` at tick `now` under the pool's
    /// current rate.
    pub open spec fn pending_rewards(&self, stake: &UserStake, now: u64) -> int {
        accrued(
            stake.staked_amount as int,
            self.current_apy as int,
            elapsed_slots(stake.last_claim_slot as int, now as int),
            SLOTS_PER_YEAR as int,
        )
    }

    /// Creates the pool record at tick `now`, with the current rate
    /// seeded from `base_apy` and the totals zeroed. Fails with
    /// `InvalidRange` unless `min_apy <= base_apy <= max_apy`.
    pub fn initialize_rewards_pool(
        base_apy: u64,
        min_apy: u64,
        max_apy: u64,
        compound_frequency: u64,
        emergency_pause: bool,
        now: u64,
    ) -> (r: Result<RewardsPool, ErrorCode>)
        ensures
            r is Ok <==> min_apy <= base_apy <= max_apy,
            r matches Err(e) ==> e == ErrorCode::InvalidRange,
            r matches Ok(pool) ==> pool == (RewardsPool {
                base_apy,
                current_apy: base_apy,
                min_apy,
                max_apy,
                compound_frequency,
                total_staked: 0,
                total_rewards_distributed: 0,
                emergency_pause,
                last_update_slot: now,
            }) && pool.well_formed(),
    {
        if min_apy > base_apy || base_apy > max_apy {
            return Err(ErrorCode::InvalidRange);
        }
        Ok(
            RewardsPool {
                base_apy,
                current_apy: base_apy,
                min_apy,
                max_apy,
                compound_frequency,
                total_staked: 0,
                total_rewards_distributed: 0,
                emergency_pause,
                last_update_slot: now,
            },
        )
    }

    /// Recomputes the current rate from the aggregate deposited value
    /// `tvl` through the rate curve and stamps the update tick. Returns
    /// the rate before and the rate after the update. Fails only while
    /// the pool is paused; the new rate always stays inside the band.
    pub fn update_apy_dynamic(&mut self, tvl: u64, now: u64) -> (r: Result<(u64, u64), ErrorCode>)
        requires
            old(self).well_formed(),
        ensures
            final(self).well_formed(),
            r is Ok <==> !old(self).emergency_pause,
            r is Err ==> *final(self) == *old(self),
            r matches Err(e) ==> e == ErrorCode::PoolPaused,
            r matches Ok((previous_apy, new_apy)) ==> previous_apy == old(self).current_apy
                && new_apy == dynamic_apy(
                old(self).min_apy as int,
                old(self).max_apy as int,
                tvl as int,
            ) && *final(self) == (RewardsPool {
                current_apy: new_apy,
                last_update_slot: now,
                ..*old(self)
            }),
    {
        if self.emergency_pause {
            return Err(ErrorCode::PoolPaused);
        }
        let previous_apy = self.current_apy;
        let new_apy = calculate_dynamic_apy(self.base_apy, self.min_apy, self.max_apy, tvl);
        self.current_apy = new_apy;
        self.last_update_slot = now;
        Ok((previous_apy, new_apy))
    }

    /// Settles `stake` at tick `now` and pays the accrued reward out:
    /// on success the host must move the returned amount from the
    /// pool's custody to the depositor atomically with this
    /// transition. Fails while the pool is paused, when nothing has
    /// accrued, or when the reward or a running total would leave the
    /// 64-bit range.
    pub fn claim_rewards(&mut self, stake: &mut UserStake, now: u64) -> (r: Result<
        u64,
        ErrorCode,
    >)
        requires
            old(self).well_formed(),
        ensures
            final(self).well_formed(),
            final(stake).last_claim_slot >= old(stake).last_claim_slot,
            r is Ok <==> ({
                let owed = old(self).pending_rewards(old(stake), now);
                &&& !old(self).emergency_pause
                &&& owed > 0
                &&& owed <= u64::MAX
                &&& old(stake).total_rewards_claimed + owed <= u64::MAX
                &&& old(self).total_rewards_distributed + owed <= u64::MAX
            }),
            r is Err ==> *final(self) == *old(self) && *final(stake) == *old(stake),
            r matches Err(e) ==> e == (if old(self).emergency_pause {
                ErrorCode::PoolPaused
            } else if old(self).pending_rewards(old(stake), now) == 0 {
                ErrorCode::NothingToClaim
            } else {
                ErrorCode::ArithmeticOverflow
            }),
            r matches Ok(reward) ==> ({
                let owed = old(self).pending_rewards(old(stake), now);
                &&& reward == owed
                &&& *final(stake) == (UserStake {
                    total_rewards_claimed: (old(stake).total_rewards_claimed + owed) as u64,
                    last_claim_slot: now,
                    ..*old(stake)
                })
                &&& *final(self) == (RewardsPool {
                    total_rewards_distributed: (old(self).total_rewards_distributed
                        + owed) as u64,
                    ..*old(self)
                })
            }),
    {
        if self.emergency_pause {
            return Err(ErrorCode::PoolPaused);
        }
        let pending = match calculate_rewards(
            stake.staked_amount,
            self.current_apy,
            stake.last_claim_slot,
            now,
        ) {
            Some(v) => v,
            None => {
                return Err(ErrorCode::ArithmeticOverflow);
            },
        };
        if pending == 0 {
            return Err(ErrorCode::NothingToClaim);
        }
        let new_claimed = match stake.total_rewards_claimed.checked_add(pending) {
            Some(v) => v,
            None => {
                return Err(ErrorCode::ArithmeticOverflow);
            },
        };
        let new_distributed = match self.total_rewards_distributed.checked_add(pending) {
            Some(v) => v,
            None => {
                return Err(ErrorCode::ArithmeticOverflow);
            },
        };
        proof {
            if now < stake.last_claim_slot {
                lemma_accrued_zero(
                    stake.staked_amount as int,
                    self.current_apy as int,
                    0,
                    SLOTS_PER_YEAR as int,
                );
            }
        }
        stake.total_rewards_claimed = new_claimed;
        stake.last_claim_slot = now;
        self.total_rewards_distributed = new_distributed;
        Ok(pending)
    }

    /// Settles `stake` at tick `now` and reinvests the accrued reward
    /// into the principal. No custody changes hands and the pool record
    /// is untouched; only future accrual grows. Fails while the pool is
    /// paused, when nothing has accrued, or when the reward or the new
    /// principal would leave the 64-bit range.
    pub fn compound_rewards(&self, stake: &mut UserStake, now: u64) -> (r: Result<
        u64,
        ErrorCode,
    >)
        ensures
            final(stake).last_claim_slot >= old(stake).last_claim_slot,
            r is Ok <==> ({
                let owed = self.pending_rewards(old(stake), now);
                &&& !self.emergency_pause
                &&& owed > 0
                &&& owed <= u64::MAX
                &&& old(stake).staked_amount + owed <= u64::MAX
            }),
            r is Err ==> *final(stake) == *old(stake),
            r matches Err(e) ==> e == (if self.emergency_pause {
                ErrorCode::PoolPaused
            } else if self.pending_rewards(old(stake), now) == 0 {
                ErrorCode::NothingToCompound
            } else {
                ErrorCode::ArithmeticOverflow
            }),
            r matches Ok(reward) ==> ({
                let owed = self.pending_rewards(old(stake), now);
                &&& reward == owed
                &&& *final(stake) == (UserStake {
                    staked_amount: (old(stake).staked_amount + owed) as u64,
                    last_claim_slot: now,
                    ..*old(stake)
                })
            }),
    {
        if self.emergency_pause {
            return Err(ErrorCode::PoolPaused);
        }
        let pending = match calculate_rewards(
            stake.staked_amount,
            self.current_apy,
            stake.last_claim_slot,
            now,
        ) {
            Some(v) => v,
            None => {
                return Err(ErrorCode::ArithmeticOverflow);
            },
        };
        if pending == 0 {
            return Err(ErrorCode::NothingToCompound);
        }
        let new_principal = match stake.staked_amount.checked_add(pending) {
            Some(v) => v,
            None => {
                return Err(ErrorCode::ArithmeticOverflow);
            },
        };
        proof {
            if now < stake.last_claim_slot {
                lemma_accrued_zero(
                    stake.staked_amount as int,
                    self.current_apy as int,
                    0,
                    SLOTS_PER_YEAR as int,
                );
            }
        }
        stake.staked_amount = new_principal;
        stake.last_claim_slot = now;
        Ok(pending)
    }

    /// Sets the emergency-pause flag; no other effect. This flag is
    /// independent of the staking pool's.
    pub fn emergency_pause(&mut self, pause: bool)
        requires
            old(self).well_formed(),
        ensures
            final(self).well_formed(),
            *final(self) == (RewardsPool { emergency_pause: pause, ..*old(self) }),
    {
        self.emergency_pause = pause;
    }
}

/// A record settled at `now` has nothing further to accrue at `now`:
/// a claim repeated with zero elapsed time finds a zero pending reward,
/// so it fails with `NothingToClaim` rather than paying twice.
pub proof fn lemma_settled_claim_pending_zero(pool: &RewardsPool, stake: &UserStake, now: u64)
    requires
        stake.last_claim_slot == now,
    ensures
        pool.pending_rewards(stake, now) == 0,
{
    lemma_accrued_zero(
        stake.staked_amount as int,
        pool.current_apy as int,
        0,
        SLOTS_PER_YEAR as int,
    );
}

} // verus!
