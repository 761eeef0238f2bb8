//! Time-proportional reward accrual.
//!
//! A position's owed reward is its principal scaled by the annualized
//! rate in basis points, paid out proportionally to the ledger ticks
//! elapsed since the last settlement. All intermediate arithmetic is
//! widened to 128 bits; every division is a floor division, so any
//! fraction below one unit is permanently lost rather than carried
//! forward.

use crate::rate::BPS_SCALE;
use vstd::arithmetic::div_mod::{
    lemma_div_is_ordered, lemma_div_multiples_vanish, lemma_div_of0,
};
use vstd::arithmetic::mul::{lemma_mul_basics, lemma_mul_upper_bound};
use vstd::prelude::*;

verus! {

/// Ledger ticks (slots) in one year at the nominal tick rate.
pub const SLOTS_PER_YEAR: u64 = 78_840_000;

/// Ticks elapsed since the last settlement; never negative.
pub open spec fn elapsed_slots(last_claim_slot: int, current_slot: int) -> int {
    if current_slot >= last_claim_slot {
        current_slot - last_claim_slot
    } else {
        0
    }
}

/// The reward owed after `elapsed` ticks: the annual reward
/// `principal * rate_bps / BPS_SCALE`, scaled by the elapsed share of
/// a year, with floor division at each step.
pub open spec fn accrued(principal: int, rate_bps: int, elapsed: int, slots_per_year: int) -> int
    recommends
        slots_per_year > 0,
{
    (principal * rate_bps / (BPS_SCALE as int)) * elapsed / slots_per_year
}

/// Computes the reward accrued between `last_claim_slot` and
/// `current_slot` at rate `apy`. Returns `None` exactly when the
/// mathematical reward does not fit in 64 bits; it is never silently
/// truncated.
pub fn calculate_rewards(
    staked_amount: u64,
    apy: u64,
    last_claim_slot: u64,
    current_slot: u64,
) -> (reward: Option<u64>)
    ensures
        ({
            let owed = accrued(
                staked_amount as int,
                apy as int,
                elapsed_slots(last_claim_slot as int, current_slot as int),
                SLOTS_PER_YEAR as int,
            );
            match reward {
                Some(v) => v == owed,
                None => owed > u64::MAX,
            }
        }),
{
    let slots_elapsed: u64 = current_slot.saturating_sub(last_claim_slot);
    proof {
        lemma_mul_upper_bound(
            staked_amount as int,
            u64::MAX as int,
            apy as int,
            u64::MAX as int,
        );
    }
    let annual_reward: u128 = (staked_amount as u128) * (apy as u128) / (BPS_SCALE as u128);
    match annual_reward.checked_mul(slots_elapsed as u128) {
        Some(total) => {
            let reward: u128 = total / (SLOTS_PER_YEAR as u128);
            if reward > u64::MAX as u128 {
                None
            } else {
                Some(reward as u64)
            }
        },
        None => {
            proof {
                lemma_overfull_product_exceeds_u64(
                    annual_reward as int,
                    slots_elapsed as int,
                );
            }
            None
        },
    }
}

/// A product too large for 128 bits, divided by a year's worth of
/// ticks, still exceeds the 64-bit range.
proof fn lemma_overfull_product_exceeds_u64(annual: int, elapsed: int)
    requires
        annual * elapsed > u128::MAX,
    ensures
        annual * elapsed / (SLOTS_PER_YEAR as int) > u64::MAX,
{
    let spy = SLOTS_PER_YEAR as int;
    let bound = u64::MAX as int + 1;
    lemma_div_multiples_vanish(bound, spy);
    lemma_div_is_ordered(spy * bound, annual * elapsed, spy);
}

/// No reward accrues without principal or without elapsed time.
pub proof fn lemma_accrued_zero(principal: int, rate_bps: int, elapsed: int, slots_per_year: int)
    requires
        slots_per_year > 0,
        principal == 0 || elapsed == 0,
    ensures
        accrued(principal, rate_bps, elapsed, slots_per_year) == 0,
{
    lemma_mul_basics(rate_bps);
    lemma_mul_basics(elapsed);
    lemma_div_of0(BPS_SCALE as int);
    lemma_mul_basics(principal * rate_bps / (BPS_SCALE as int));
    lemma_div_of0(slots_per_year);
}

} // verus!
