//! Dynamic rate curve: maps the aggregate deposited value (TVL) to the
//! currently effective annualized rate, in basis points.
//!
//! Below `TVL_THRESHOLD_LOW` the curve pays the maximum rate, above
//! `TVL_THRESHOLD_HIGH` the minimum, and in between it interpolates
//! linearly downward from the maximum to the minimum.

use vstd::arithmetic::div_mod::{
    lemma_div_is_ordered, lemma_div_multiples_vanish, lemma_div_pos_is_pos,
};
use vstd::arithmetic::mul::{
    lemma_mul_inequality, lemma_mul_is_commutative, lemma_mul_nonnegative, lemma_mul_upper_bound,
};
use vstd::prelude::*;

verus! {

/// Aggregate value below which the maximum rate applies.
pub const TVL_THRESHOLD_LOW: u64 = 1_000_000;

/// Aggregate value above which the minimum rate applies.
pub const TVL_THRESHOLD_HIGH: u64 = 100_000_000;

/// Scale of the interpolation ratio and of rates in basis points.
pub const BPS_SCALE: u64 = 10_000;

/// The rate curve: the annualized rate owed at aggregate value `tvl`,
/// for a pool configured with the inclusive rate band
/// `[min_apy, max_apy]`.
pub open spec fn dynamic_apy(min_apy: int, max_apy: int, tvl: int) -> int {
    if tvl < TVL_THRESHOLD_LOW {
        max_apy
    } else if tvl > TVL_THRESHOLD_HIGH {
        min_apy
    } else {
        let ratio = (tvl - TVL_THRESHOLD_LOW) * BPS_SCALE / ((TVL_THRESHOLD_HIGH
            - TVL_THRESHOLD_LOW) as int);
        max_apy - (max_apy - min_apy) * ratio / (BPS_SCALE as int)
    }
}

/// Computes the rate curve. `base_apy` is accepted for symmetry with
/// pool initialization but does not participate in the curve; the
/// result depends on the band and the aggregate value alone.
pub fn calculate_dynamic_apy(base_apy: u64, min_apy: u64, max_apy: u64, tvl: u64) -> (apy: u64)
    requires
        min_apy <= max_apy,
    ensures
        apy == dynamic_apy(min_apy as int, max_apy as int, tvl as int),
        min_apy <= apy <= max_apy,
{
    if tvl < TVL_THRESHOLD_LOW {
        max_apy
    } else if tvl > TVL_THRESHOLD_HIGH {
        min_apy
    } else {
        let span: u64 = TVL_THRESHOLD_HIGH - TVL_THRESHOLD_LOW;
        let ratio: u64 = (tvl - TVL_THRESHOLD_LOW) * BPS_SCALE / span;
        proof {
            lemma_ratio_bounds(tvl as int);
        }
        let apy_range: u64 = max_apy - min_apy;
        proof {
            lemma_mul_upper_bound(apy_range as int, u64::MAX as int, ratio as int, BPS_SCALE as int);
        }
        let scaled: u128 = (apy_range as u128) * (ratio as u128) / (BPS_SCALE as u128);
        proof {
            lemma_scaled_le_range(apy_range as int, ratio as int);
        }
        max_apy - (scaled as u64)
    }
}

/// The interpolation ratio lies in `[0, BPS_SCALE]` whenever the
/// aggregate value lies between the two thresholds.
proof fn lemma_ratio_bounds(tvl: int)
    requires
        TVL_THRESHOLD_LOW <= tvl <= TVL_THRESHOLD_HIGH,
    ensures
        0 <= (tvl - TVL_THRESHOLD_LOW) * BPS_SCALE / (TVL_THRESHOLD_HIGH - TVL_THRESHOLD_LOW)
            <= BPS_SCALE,
{
    let span = TVL_THRESHOLD_HIGH - TVL_THRESHOLD_LOW;
    let numerator = (tvl - TVL_THRESHOLD_LOW) * BPS_SCALE;
    lemma_mul_inequality(tvl - TVL_THRESHOLD_LOW, span, BPS_SCALE as int);
    lemma_div_is_ordered(numerator, span * (BPS_SCALE as int), span);
    lemma_div_multiples_vanish(BPS_SCALE as int, span);
    lemma_mul_is_commutative(span, BPS_SCALE as int);
    lemma_mul_nonnegative(tvl - TVL_THRESHOLD_LOW, BPS_SCALE as int);
    lemma_div_pos_is_pos(numerator, span);
}

/// Scaling a nonnegative range by a ratio of at most `BPS_SCALE` and
/// dividing back out never exceeds the range.
proof fn lemma_scaled_le_range(apy_range: int, ratio: int)
    requires
        0 <= apy_range,
        0 <= ratio <= BPS_SCALE,
    ensures
        0 <= apy_range * ratio / (BPS_SCALE as int) <= apy_range,
{
    lemma_mul_inequality(ratio, BPS_SCALE as int, apy_range);
    lemma_mul_is_commutative(ratio, apy_range);
    lemma_mul_is_commutative(BPS_SCALE as int, apy_range);
    lemma_div_is_ordered(apy_range * ratio, apy_range * (BPS_SCALE as int), BPS_SCALE as int);
    lemma_div_multiples_vanish(apy_range, BPS_SCALE as int);
    lemma_mul_nonnegative(apy_range, ratio);
    lemma_div_pos_is_pos(apy_range * ratio, BPS_SCALE as int);
}

/// The computed rate always lies inside the configured band, for every
/// aggregate value: zero, between the thresholds, or far above the
/// high threshold.
pub proof fn lemma_dynamic_apy_in_range(min_apy: int, max_apy: int, tvl: int)
    requires
        0 <= min_apy <= max_apy,
    ensures
        min_apy <= dynamic_apy(min_apy, max_apy, tvl) <= max_apy,
{
    if TVL_THRESHOLD_LOW <= tvl <= TVL_THRESHOLD_HIGH {
        let ratio = (tvl - TVL_THRESHOLD_LOW) * BPS_SCALE / (TVL_THRESHOLD_HIGH
            - TVL_THRESHOLD_LOW);
        lemma_ratio_bounds(tvl);
        lemma_scaled_le_range(max_apy - min_apy, ratio);
    }
}

/// The rate curve is non-increasing: raising the aggregate value never
/// raises the computed rate.
pub proof fn lemma_dynamic_apy_monotonic(min_apy: int, max_apy: int, tvl1: int, tvl2: int)
    requires
        0 <= min_apy <= max_apy,
        tvl1 <= tvl2,
    ensures
        dynamic_apy(min_apy, max_apy, tvl2) <= dynamic_apy(min_apy, max_apy, tvl1),
{
    lemma_dynamic_apy_in_range(min_apy, max_apy, tvl1);
    lemma_dynamic_apy_in_range(min_apy, max_apy, tvl2);
    if TVL_THRESHOLD_LOW <= tvl1 && tvl2 <= TVL_THRESHOLD_HIGH {
        let span = TVL_THRESHOLD_HIGH - TVL_THRESHOLD_LOW;
        let ratio1 = (tvl1 - TVL_THRESHOLD_LOW) * BPS_SCALE / span;
        let ratio2 = (tvl2 - TVL_THRESHOLD_LOW) * BPS_SCALE / span;
        lemma_mul_inequality(tvl1 - TVL_THRESHOLD_LOW, tvl2 - TVL_THRESHOLD_LOW, BPS_SCALE as int);
        lemma_div_is_ordered(
            (tvl1 - TVL_THRESHOLD_LOW) * BPS_SCALE,
            (tvl2 - TVL_THRESHOLD_LOW) * BPS_SCALE,
            span,
        );
        lemma_ratio_bounds(tvl1);
        let apy_range = max_apy - min_apy;
        lemma_mul_inequality(ratio1, ratio2, apy_range);
        lemma_mul_is_commutative(ratio1, apy_range);
        lemma_mul_is_commutative(ratio2, apy_range);
        lemma_div_is_ordered(apy_range * ratio1, apy_range * ratio2, BPS_SCALE as int);
    }
}

} // verus!
