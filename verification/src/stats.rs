//! The time-weighted exponential moving average at the heart of both TWAP
//! trackers.

use vstd::prelude::*;

use crate::error::ErrorCode;
use crate::math::{div_i128, i128_to_i64, spec_div_trunc};

verus! {

/// Rounding correction of one EMA step. When the retained weight is more
/// than one time unit, the truncated average is nudged one unit toward
/// whichever weighted side is heavier, so that a long quiet stretch cannot
/// silently erode the average through truncation alone.
pub open spec fn spec_ema_bias(new_price: int, old_twap: int, weight_new: int, weight_old: int) -> int {
    if weight_old > 1 {
        if old_twap * weight_old > new_price * weight_new {
            1
        } else if old_twap * weight_old < new_price * weight_new {
            -1
        } else {
            0
        }
    } else {
        0
    }
}

/// Mathematical value of one EMA step: the weight-truncated average of the
/// incoming price and the stored average, plus the rounding bias. A zero
/// retained weight replaces the average outright, and the bias never turns
/// an exactly-zero average negative.
pub open spec fn spec_weighted_twap_value(
    new_price: int,
    old_twap: int,
    weight_new: int,
    weight_old: int,
) -> int
    recommends
        weight_new >= 1,
        weight_old >= 0,
{
    if weight_old == 0 {
        new_price
    } else {
        let raw = spec_div_trunc(
            new_price * weight_new + old_twap * weight_old,
            weight_new + weight_old,
        );
        let bias = spec_ema_bias(new_price, old_twap, weight_new, weight_old);
        if raw == 0 && bias < 0 {
            0
        } else {
            raw + bias
        }
    }
}

/// One EMA step as the executable code returns it: the value of
/// [`spec_weighted_twap_value`], or an arithmetic failure exactly when that
/// value leaves `i64`.
pub open spec fn spec_weighted_twap(
    new_price: int,
    old_twap: int,
    weight_new: int,
    weight_old: int,
) -> Result<i64, ErrorCode> {
    let v = spec_weighted_twap_value(new_price, old_twap, weight_new, weight_old);
    if i64::MIN <= v <= i64::MAX {
        Ok(v as i64)
    } else {
        Err(ErrorCode::MathOverflow)
    }
}

/// Folds `new_price`, carrying `weight_new` units of time, into `old_twap`,
/// which retains `weight_old` units.
pub fn weighted_twap(new_price: i64, old_twap: i64, weight_new: i64, weight_old: i64) -> (r: Result<
    i64,
    ErrorCode,
>)
    requires
        weight_new >= 1,
        weight_old >= 0,
    ensures
        r == spec_weighted_twap(new_price as int, old_twap as int, weight_new as int, weight_old as int),
{
    if weight_old == 0 {
        return Ok(new_price);
    }
    proof {
        assert((new_price as i128) * (weight_new as i128)
            <= 0x3fff_ffff_ffff_ffff_8000_0000_0000_0000int && (new_price as i128) * (
        weight_new as i128) >= -0x3fff_ffff_ffff_ffff_8000_0000_0000_0000int) by (nonlinear_arith)
            requires
                -0x8000_0000_0000_0000 <= new_price <= 0x7fff_ffff_ffff_ffff,
                1 <= weight_new <= 0x7fff_ffff_ffff_ffff,
        ;
        assert((old_twap as i128) * (weight_old as i128)
            <= 0x3fff_ffff_ffff_ffff_8000_0000_0000_0000int && (old_twap as i128) * (
        weight_old as i128) >= -0x3fff_ffff_ffff_ffff_8000_0000_0000_0000int) by (nonlinear_arith)
            requires
                -0x8000_0000_0000_0000 <= old_twap <= 0x7fff_ffff_ffff_ffff,
                1 <= weight_old <= 0x7fff_ffff_ffff_ffff,
        ;
    }
    let weighted_new: i128 = (new_price as i128) * (weight_new as i128);
    let weighted_old: i128 = (old_twap as i128) * (weight_old as i128);
    let denominator: i128 = (weight_new as i128) + (weight_old as i128);
    let raw = match div_i128(weighted_new + weighted_old, denominator) {
        Ok(v) => v,
        Err(e) => {
            proof {
                crate::settlement::lemma_div_trunc_bounded(
                    weighted_new + weighted_old,
                    denominator as int,
                );
            }
            assert(false);
            return Err(e);
        },
    };
    let bias: i128 = if weighted_old > weighted_new {
        1
    } else if weighted_old < weighted_new {
        -1
    } else {
        0
    };
    let bias: i128 = if weight_old > 1 {
        bias
    } else {
        0
    };
    if raw == 0 && bias < 0 {
        return Ok(0);
    }
    proof {
        crate::settlement::lemma_div_trunc_bounded(weighted_new + weighted_old, denominator as int);
    }
    i128_to_i64(raw + bias)
}

/// The volatility estimate converges toward zero under repeated identical
/// samples: one EMA step over a sample at or above the stored average,
/// while the retained weight outweighs the incoming sample, moves the
/// average strictly toward the sample and never more than one unit past
/// it. The volatility estimate is the distance between the sample and the
/// new average, so it shrinks at every step until it rests within one unit
/// of zero; and as the distance of unsigned values it can never be
/// negative.
pub proof fn lemma_volatility_contracts(sample: int, average: int, weight_new: int, weight_old: int)
    requires
        0 <= average <= sample,
        1 <= weight_new,
        1 < weight_old,
        sample * weight_new < average * weight_old,
    ensures
        average < spec_weighted_twap_value(sample, average, weight_new, weight_old) <= sample + 1,
        crate::math::abs_int(
            sample - spec_weighted_twap_value(sample, average, weight_new, weight_old),
        ) <= (if sample - average >= 1 {
            sample - average
        } else {
            1
        }),
{
    let numerator = sample * weight_new + average * weight_old;
    let denominator = weight_new + weight_old;
    assert(average * denominator <= numerator) by (nonlinear_arith)
        requires
            0 <= average <= sample,
            1 <= weight_new,
            numerator == sample * weight_new + average * weight_old,
            denominator == weight_new + weight_old,
    ;
    assert(numerator <= sample * denominator) by (nonlinear_arith)
        requires
            0 <= average <= sample,
            1 < weight_old,
            numerator == sample * weight_new + average * weight_old,
            denominator == weight_new + weight_old,
    ;
    assert(numerator >= 0) by (nonlinear_arith)
        requires
            0 <= average <= sample,
            1 <= weight_new,
            1 < weight_old,
            numerator == sample * weight_new + average * weight_old,
    ;
    vstd::arithmetic::div_mod::lemma_div_multiples_vanish(average, denominator);
    vstd::arithmetic::div_mod::lemma_div_multiples_vanish(sample, denominator);
    vstd::arithmetic::div_mod::lemma_div_is_ordered(average * denominator, numerator, denominator);
    vstd::arithmetic::div_mod::lemma_div_is_ordered(numerator, sample * denominator, denominator);
    assert(denominator * average == average * denominator) by (nonlinear_arith);
    assert(denominator * sample == sample * denominator) by (nonlinear_arith);
    assert(spec_div_trunc(numerator, denominator) == numerator / denominator);
}

/// One EMA step over non-negative inputs stays between its two inputs, up
/// to the one-unit rounding bias.
pub proof fn lemma_wavg_between(new_price: int, old_twap: int, weight_new: int, weight_old: int)
    requires
        0 <= new_price,
        0 <= old_twap,
        1 <= weight_new,
        0 <= weight_old,
    ensures
        (if new_price <= old_twap {
            new_price
        } else {
            old_twap
        }) - 1 <= spec_weighted_twap_value(new_price, old_twap, weight_new, weight_old) <= (if new_price
            >= old_twap {
            new_price
        } else {
            old_twap
        }) + 1,
{
    if weight_old != 0 {
        let lo = if new_price <= old_twap {
            new_price
        } else {
            old_twap
        };
        let hi = if new_price >= old_twap {
            new_price
        } else {
            old_twap
        };
        let numerator = new_price * weight_new + old_twap * weight_old;
        let denominator = weight_new + weight_old;
        assert(lo * denominator <= numerator <= hi * denominator && 0 <= numerator) by (nonlinear_arith)
            requires
                0 <= new_price,
                0 <= old_twap,
                1 <= weight_new,
                1 <= weight_old,
                lo == (if new_price <= old_twap {
                    new_price
                } else {
                    old_twap
                }),
                hi == (if new_price >= old_twap {
                    new_price
                } else {
                    old_twap
                }),
                numerator == new_price * weight_new + old_twap * weight_old,
                denominator == weight_new + weight_old,
        ;
        vstd::arithmetic::div_mod::lemma_div_multiples_vanish(lo, denominator);
        vstd::arithmetic::div_mod::lemma_div_multiples_vanish(hi, denominator);
        vstd::arithmetic::div_mod::lemma_div_is_ordered(lo * denominator, numerator, denominator);
        vstd::arithmetic::div_mod::lemma_div_is_ordered(numerator, hi * denominator, denominator);
        assert(denominator * lo == lo * denominator) by (nonlinear_arith);
        assert(denominator * hi == hi * denominator) by (nonlinear_arith);
        assert(spec_div_trunc(numerator, denominator) == numerator / denominator);
    }
}

/// Absolute difference of two unsigned values; the memoryless dispersion
/// estimator both volatility trackers use.
pub fn abs_diff_u64(a: u64, b: u64) -> (r: u64)
    ensures
        r == crate::math::abs_int(a - b),
{
    if a >= b {
        a - b
    } else {
        b - a
    }
}

} // verus!
