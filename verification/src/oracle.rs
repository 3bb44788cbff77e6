//! The oracle TWAP tracker: normalisation, jump clamping, the two EMA
//! windows and the oracle volatility estimate.

use vstd::prelude::*;

use crate::constants::{DEFAULT_MAX_TWAP_UPDATE_PRICE_BAND_DENOMINATOR, FIVE_MINUTE,
    RESERVE_PRICE_MARGIN_DENOMINATOR};
use crate::error::ErrorCode;
use crate::math::{abs_int, add_i64, max_i64, spec_div_trunc, sub_i64, u64_to_i64};
use crate::state::{spec_calculate_price, HistoricalOracleData, OraclePriceData, AMM};
use crate::stats::{spec_weighted_twap, weighted_twap};

verus! {

/// An oracle sample pulled toward the reserve price by its own confidence
/// width: when the reserve price sits above the sample, the price may rise
/// by at most its confidence, and never above the reserve price less a
/// 2.5-basis-point margin; below, symmetrically. The raw sample is never
/// pushed past itself.
pub open spec fn spec_normalise_oracle_price(price: int, confidence: int, reserve_price: int) -> Result<
    i64,
    ErrorCode,
> {
    if reserve_price > i64::MAX {
        Err(ErrorCode::MathOverflow)
    } else if confidence > i64::MAX {
        Err(ErrorCode::MathOverflow)
    } else {
        let margin = spec_div_trunc(reserve_price, RESERVE_PRICE_MARGIN_DENOMINATOR as int);
        if reserve_price > price {
            if !(i64::MIN <= price + confidence <= i64::MAX) {
                Err(ErrorCode::MathOverflow)
            } else {
                let ceiling = reserve_price - margin;
                let lifted = if price + confidence <= ceiling {
                    price + confidence
                } else {
                    ceiling
                };
                Ok((if lifted >= price {
                    lifted
                } else {
                    price
                }) as i64)
            }
        } else {
            if !(i64::MIN <= price - confidence <= i64::MAX) {
                Err(ErrorCode::MathOverflow)
            } else if !(reserve_price + margin <= i64::MAX) {
                Err(ErrorCode::MathOverflow)
            } else {
                let floor = reserve_price + margin;
                let lowered = if price - confidence >= floor {
                    price - confidence
                } else {
                    floor
                };
                Ok((if lowered <= price {
                    lowered
                } else {
                    price
                }) as i64)
            }
        }
    }
}

/// Normalises one oracle sample against a known reserve price; see
/// [`spec_normalise_oracle_price`].
pub fn normalise_oracle_price_with_reserve(price: i64, confidence: u64, reserve_price: u64) -> (r:
    Result<i64, ErrorCode>)
    ensures
        r == spec_normalise_oracle_price(price as int, confidence as int, reserve_price as int),
{
    let rp = match u64_to_i64(reserve_price) {
        Ok(v) => v,
        Err(e) => {
            return Err(e);
        },
    };
    let conf = match u64_to_i64(confidence) {
        Ok(v) => v,
        Err(e) => {
            return Err(e);
        },
    };
    let margin = rp / RESERVE_PRICE_MARGIN_DENOMINATOR;
    if rp > price {
        let lifted_raw = match add_i64(price, conf) {
            Ok(v) => v,
            Err(e) => {
                return Err(e);
            },
        };
        let ceiling = rp - margin;
        let lifted = if lifted_raw <= ceiling {
            lifted_raw
        } else {
            ceiling
        };
        Ok(
            if lifted >= price {
                lifted
            } else {
                price
            },
        )
    } else {
        let lowered_raw = match sub_i64(price, conf) {
            Ok(v) => v,
            Err(e) => {
                return Err(e);
            },
        };
        let floor = match add_i64(rp, margin) {
            Ok(v) => v,
            Err(e) => {
                return Err(e);
            },
        };
        let lowered = if lowered_raw >= floor {
            lowered_raw
        } else {
            floor
        };
        Ok(
            if lowered <= price {
                lowered
            } else {
                price
            },
        )
    }
}

/// Normalisation of a sample against a market's state: the reserve price is
/// the precomputed one when given, else it is read off the reserves.
pub open spec fn spec_normalise_from_amm(
    amm: AMM,
    sample: OraclePriceData,
    precomputed_reserve_price: Option<u64>,
) -> Result<i64, ErrorCode> {
    match precomputed_reserve_price {
        Some(rp) => spec_normalise_oracle_price(
            sample.price as int,
            sample.confidence as int,
            rp as int,
        ),
        None => match spec_calculate_price(
            amm.quote_asset_reserve,
            amm.base_asset_reserve,
            amm.peg_multiplier,
        ) {
            Ok(rp) => spec_normalise_oracle_price(
                sample.price as int,
                sample.confidence as int,
                rp as int,
            ),
            Err(e) => Err(e),
        },
    }
}

/// Normalises a sample toward the market's reserve price; see
/// [`spec_normalise_from_amm`].
pub fn normalise_oracle_price(amm: &AMM, sample: &OraclePriceData, precomputed_reserve_price: Option<
    u64,
>) -> (r: Result<i64, ErrorCode>)
    ensures
        r == spec_normalise_from_amm(*amm, *sample, precomputed_reserve_price),
{
    let rp = match precomputed_reserve_price {
        Some(rp) => rp,
        None => {
            match amm.reserve_price() {
                Ok(v) => v,
                Err(e) => {
                    return Err(e);
                },
            }
        },
    };
    normalise_oracle_price_with_reserve(sample.price, sample.confidence, rp)
}

/// Clamps an incoming price into a band around the stored TWAP: at most
/// `twap / denominator` away per elapsed time unit, so the clamp limits
/// the rate at which any sequence of samples can relocate the TWAP, while
/// a long quiet gap may carry a proportionally larger move. A zero stored
/// TWAP and a zero denominator both disable the clamp; the default
/// denominator bounds the move to a third of the TWAP per second.
pub open spec fn spec_sanitize_new_price(
    new_price: int,
    last_twap: int,
    elapsed: int,
    clamp_denominator: Option<i64>,
) -> Result<i64, ErrorCode>
    recommends
        elapsed >= 1,
{
    let denom = match clamp_denominator {
        Some(d) => d as int,
        None => DEFAULT_MAX_TWAP_UPDATE_PRICE_BAND_DENOMINATOR as int,
    };
    if last_twap == 0 || denom == 0 {
        Ok(new_price as i64)
    } else {
        let band = spec_div_trunc(last_twap, denom) * elapsed;
        if abs_int(new_price - last_twap) > abs_int(band) {
            if new_price > last_twap {
                if !(i64::MIN <= last_twap + band <= i64::MAX) {
                    Err(ErrorCode::MathOverflow)
                } else {
                    Ok((last_twap + band) as i64)
                }
            } else {
                if !(i64::MIN <= last_twap - band <= i64::MAX) {
                    Err(ErrorCode::MathOverflow)
                } else {
                    Ok((last_twap - band) as i64)
                }
            }
        } else {
            Ok(new_price as i64)
        }
    }
}

/// Clamps one price step over `elapsed` time units; see
/// [`spec_sanitize_new_price`].
pub fn sanitize_new_price(new_price: i64, last_twap: i64, elapsed: i64, clamp_denominator: Option<
    i64,
>) -> (r: Result<i64, ErrorCode>)
    requires
        elapsed >= 1,
    ensures
        r == spec_sanitize_new_price(
            new_price as int,
            last_twap as int,
            elapsed as int,
            clamp_denominator,
        ),
{
    let denom = match clamp_denominator {
        Some(d) => d,
        None => DEFAULT_MAX_TWAP_UPDATE_PRICE_BAND_DENOMINATOR,
    };
    if last_twap == 0 || denom == 0 {
        return Ok(new_price);
    }
    let band_rate: i128 = match crate::math::div_i128(last_twap as i128, denom as i128) {
        Ok(v) => v,
        Err(e) => {
            proof {
                crate::settlement::lemma_div_trunc_bounded(last_twap as int, abs_int(denom as int));
            }
            assert(false);
            return Err(e);
        },
    };
    proof {
        crate::settlement::lemma_div_trunc_bounded(last_twap as int, abs_int(denom as int));
        assert(band_rate * (elapsed as i128) <= 0x3fff_ffff_ffff_ffff_8000_0000_0000_0000int
            && band_rate * (elapsed as i128)
            >= -0x3fff_ffff_ffff_ffff_8000_0000_0000_0000int) by (nonlinear_arith)
            requires
                -0x8000_0000_0000_0000 <= band_rate <= 0x8000_0000_0000_0000,
                1 <= elapsed <= 0x7fff_ffff_ffff_ffff,
        ;
    }
    let band: i128 = band_rate * (elapsed as i128);
    let spread: i128 = (new_price as i128) - (last_twap as i128);
    let spread_mag = if spread >= 0 {
        spread
    } else {
        -spread
    };
    let band_mag = if band >= 0 {
        band
    } else {
        -band
    };
    if spread_mag > band_mag {
        proof {
            crate::settlement::lemma_div_trunc_bounded(last_twap as int, abs_int(denom as int));
        }
        if new_price > last_twap {
            crate::math::i128_to_i64((last_twap as i128) + band)
        } else {
            crate::math::i128_to_i64((last_twap as i128) - band)
        }
    } else {
        Ok(new_price)
    }
}

/// The whole oracle update over one sample, as a function of the incoming
/// state: the new state, or the arithmetic failure that aborts the call.
///
/// A call with non-positive elapsed time is a strict no-op: the stored
/// state is returned untouched, which makes the update idempotent and
/// keeps the timestamp non-decreasing. Otherwise the sample is normalised
/// toward the reserve price, clamped into the elapsed-scaled band around
/// the stored full-window TWAP, and folded into both windows with weight
/// `elapsed / window` (a whole quiet window replaces a window's average
/// outright); the volatility estimate becomes the distance between the
/// clamped sample and the new full-window TWAP. A sample whose normalised
/// or clamped price is not positive fails the sanity check and also leaves
/// the state unchanged.
pub open spec fn spec_update_oracle_price_twap(
    amm: AMM,
    now: i64,
    sample: OraclePriceData,
    precomputed_reserve_price: Option<u64>,
    clamp_denominator: Option<i64>,
) -> Result<AMM, ErrorCode> {
    if now <= amm.historical_oracle_data.last_oracle_price_twap_ts {
        Ok(amm)
    } else if !(now - amm.historical_oracle_data.last_oracle_price_twap_ts <= i64::MAX) {
        Err(ErrorCode::MathOverflow)
    } else {
        let elapsed: int = now - amm.historical_oracle_data.last_oracle_price_twap_ts;
        match spec_normalise_from_amm(amm, sample, precomputed_reserve_price) {
        Err(e) => Err(e),
        Ok(normalised) => match spec_sanitize_new_price(
            normalised as int,
            amm.historical_oracle_data.last_oracle_price_twap as int,
            elapsed,
            clamp_denominator,
        ) {
            Err(e) => Err(e),
            Ok(clamped) => {
                if !(clamped > 0 && normalised > 0) {
                    Ok(amm)
                } else {
                    if !(i64::MIN <= amm.funding_period - elapsed <= i64::MAX) {
                        Err(ErrorCode::MathOverflow)
                    } else {
                        let retained_full: int = if amm.funding_period - elapsed >= 0 {
                            amm.funding_period - elapsed
                        } else {
                            0
                        };
                        let retained_5min: int = if FIVE_MINUTE - elapsed >= 0 {
                            FIVE_MINUTE - elapsed
                        } else {
                            0
                        };
                        match spec_weighted_twap(
                            clamped as int,
                            amm.historical_oracle_data.last_oracle_price_twap as int,
                            elapsed,
                            retained_full,
                        ) {
                            Err(e) => Err(e),
                            Ok(full_twap) => match spec_weighted_twap(
                                clamped as int,
                                amm.historical_oracle_data.last_oracle_price_twap_5min as int,
                                elapsed,
                                retained_5min,
                            ) {
                                Err(e) => Err(e),
                                Ok(five_twap) => {
                                    if !(i64::MIN <= clamped - full_twap <= i64::MAX) {
                                        Err(ErrorCode::MathOverflow)
                                    } else {
                                        Ok(
                                            AMM {
                                                last_oracle_normalised_price: clamped,
                                                oracle_std: abs_int(clamped - full_twap) as u64,
                                                historical_oracle_data: HistoricalOracleData {
                                                    last_oracle_price: sample.price,
                                                    last_oracle_conf: sample.confidence,
                                                    last_oracle_delay: sample.delay,
                                                    last_oracle_price_twap: full_twap,
                                                    last_oracle_price_twap_5min: five_twap,
                                                    last_oracle_price_twap_ts: now,
                                                },
                                                ..amm
                                            },
                                        )
                                    }
                                },
                            },
                        }
                    }
                }
            },
        },
        }
    }
}

/// Folds one oracle sample into the market's full-window and five-minute
/// TWAPs and its volatility estimate, and returns the new full-window TWAP.
/// A call at an unchanged or earlier timestamp is a no-op; otherwise either
/// all fields are written, or the state is left untouched; see
/// [`spec_update_oracle_price_twap`].
pub fn update_oracle_price_twap(
    amm: &mut AMM,
    now: i64,
    oracle_price_data: &OraclePriceData,
    precomputed_reserve_price: Option<u64>,
    sanitize_clamp_denominator: Option<i64>,
) -> (r: Result<i64, ErrorCode>)
    ensures
        ({
            match spec_update_oracle_price_twap(
                *old(amm),
                now,
                *oracle_price_data,
                precomputed_reserve_price,
                sanitize_clamp_denominator,
            ) {
                Ok(updated) => r == Ok::<i64, ErrorCode>(
                    updated.historical_oracle_data.last_oracle_price_twap,
                ) && *final(amm) == updated,
                Err(e) => r == Err::<i64, ErrorCode>(e) && *final(amm) == *old(amm),
            }
        }),
{
    if now <= amm.historical_oracle_data.last_oracle_price_twap_ts {
        return Ok(amm.historical_oracle_data.last_oracle_price_twap);
    }
    let elapsed = match sub_i64(now, amm.historical_oracle_data.last_oracle_price_twap_ts) {
        Ok(v) => v,
        Err(e) => {
            return Err(e);
        },
    };
    let normalised = match normalise_oracle_price(amm, oracle_price_data, precomputed_reserve_price) {
        Ok(v) => v,
        Err(e) => {
            return Err(e);
        },
    };
    let clamped = match sanitize_new_price(
        normalised,
        amm.historical_oracle_data.last_oracle_price_twap,
        elapsed,
        sanitize_clamp_denominator,
    ) {
        Ok(v) => v,
        Err(e) => {
            return Err(e);
        },
    };
    if !(clamped > 0 && normalised > 0) {
        return Ok(amm.historical_oracle_data.last_oracle_price_twap);
    }
    let remaining = match sub_i64(amm.funding_period, elapsed) {
        Ok(v) => v,
        Err(e) => {
            return Err(e);
        },
    };
    let retained_full = max_i64(0, remaining);
    let retained_5min = max_i64(0, if FIVE_MINUTE - elapsed >= 0 {
        FIVE_MINUTE - elapsed
    } else {
        0
    });
    let full_twap = match weighted_twap(
        clamped,
        amm.historical_oracle_data.last_oracle_price_twap,
        elapsed,
        retained_full,
    ) {
        Ok(v) => v,
        Err(e) => {
            return Err(e);
        },
    };
    let five_twap = match weighted_twap(
        clamped,
        amm.historical_oracle_data.last_oracle_price_twap_5min,
        elapsed,
        retained_5min,
    ) {
        Ok(v) => v,
        Err(e) => {
            return Err(e);
        },
    };
    let deviation = match sub_i64(clamped, full_twap) {
        Ok(v) => v,
        Err(e) => {
            return Err(e);
        },
    };
    amm.last_oracle_normalised_price = clamped;
    amm.oracle_std = if deviation >= 0 {
        deviation as u64
    } else {
        (-deviation) as u64
    };
    amm.historical_oracle_data.last_oracle_price = oracle_price_data.price;
    amm.historical_oracle_data.last_oracle_conf = oracle_price_data.confidence;
    amm.historical_oracle_data.last_oracle_delay = oracle_price_data.delay;
    amm.historical_oracle_data.last_oracle_price_twap = full_twap;
    amm.historical_oracle_data.last_oracle_price_twap_5min = five_twap;
    amm.historical_oracle_data.last_oracle_price_twap_ts = now;
    Ok(full_twap)
}

/// A price step accepted by the default clamp lies within a third of the
/// stored positive TWAP per elapsed time unit.
proof fn lemma_sanitize_within_band(new_price: int, last_twap: int, elapsed: int)
    requires
        i64::MIN <= new_price <= i64::MAX,
        0 < last_twap <= i64::MAX,
        elapsed >= 1,
        spec_sanitize_new_price(new_price, last_twap, elapsed, None::<i64>) is Ok,
    ensures
        abs_int(
            spec_sanitize_new_price(new_price, last_twap, elapsed, None::<i64>)->Ok_0 - last_twap,
        ) <= spec_div_trunc(last_twap, 3) * elapsed,
{
    assert(DEFAULT_MAX_TWAP_UPDATE_PRICE_BAND_DENOMINATOR as int == 3);
    let band = spec_div_trunc(last_twap, 3) * elapsed;
    vstd::arithmetic::div_mod::lemma_div_pos_is_pos(last_twap, 3);
    assert(band >= 0) by (nonlinear_arith)
        requires
            spec_div_trunc(last_twap, 3) >= 0,
            elapsed >= 1,
            band == spec_div_trunc(last_twap, 3) * elapsed,
    ;
    assert(abs_int(band) == band);
    if abs_int(new_price - last_twap) > band {
        if new_price > last_twap {
            assert(spec_sanitize_new_price(new_price, last_twap, elapsed, None::<i64>)->Ok_0
                == last_twap + band);
        } else {
            assert(spec_sanitize_new_price(new_price, last_twap, elapsed, None::<i64>)->Ok_0
                == last_twap - band);
        }
    } else {
        assert(spec_sanitize_new_price(new_price, last_twap, elapsed, None::<i64>)->Ok_0
            == new_price);
    }
}

/// The clamp limits the rate at which quotes can relocate the TWAP: one
/// call of the oracle update with the default band, on a state whose
/// full-window TWAP is positive, moves that TWAP by no more than a third
/// of itself per elapsed second, plus one rounding unit, whatever the
/// sample says.
pub proof fn lemma_oracle_update_move_is_rate_limited(
    amm: AMM,
    now: i64,
    sample: OraclePriceData,
    precomputed_reserve_price: Option<u64>,
)
    requires
        amm.historical_oracle_data.last_oracle_price_twap > 0,
        now > amm.historical_oracle_data.last_oracle_price_twap_ts,
        spec_update_oracle_price_twap(amm, now, sample, precomputed_reserve_price, None::<i64>) is Ok,
    ensures
        abs_int(
            spec_update_oracle_price_twap(
                amm,
                now,
                sample,
                precomputed_reserve_price,
                None::<i64>,
            )->Ok_0.historical_oracle_data.last_oracle_price_twap
                - amm.historical_oracle_data.last_oracle_price_twap,
        ) <= spec_div_trunc(amm.historical_oracle_data.last_oracle_price_twap as int, 3) * (now
            - amm.historical_oracle_data.last_oracle_price_twap_ts) + 1,
{
    let twap = amm.historical_oracle_data.last_oracle_price_twap as int;
    let elapsed: int = now - amm.historical_oracle_data.last_oracle_price_twap_ts;
    let normalised = spec_normalise_from_amm(amm, sample, precomputed_reserve_price)->Ok_0;
    let clamped = spec_sanitize_new_price(normalised as int, twap, elapsed, None::<i64>)->Ok_0;
    let updated = spec_update_oracle_price_twap(
        amm,
        now,
        sample,
        precomputed_reserve_price,
        None::<i64>,
    )->Ok_0;
    vstd::arithmetic::div_mod::lemma_div_pos_is_pos(twap, 3);
    assert(spec_div_trunc(twap, 3) * elapsed >= 0) by (nonlinear_arith)
        requires
            spec_div_trunc(twap, 3) >= 0,
            elapsed >= 1,
    ;
    if updated != amm {
        lemma_sanitize_within_band(normalised as int, twap, elapsed);
        let retained: int = if amm.funding_period - elapsed >= 0 {
            amm.funding_period - elapsed
        } else {
            0
        };
        crate::stats::lemma_wavg_between(clamped as int, twap, elapsed, retained);
    }
}

/// Non-positive elapsed time is a strict no-op: whatever the sample, a
/// call at or before the stored timestamp succeeds and leaves the state
/// exactly as it was. The stored timestamp therefore never moves backward.
pub proof fn lemma_oracle_update_noop_without_elapsed_time(
    amm: AMM,
    now: i64,
    sample: OraclePriceData,
    precomputed_reserve_price: Option<u64>,
    clamp_denominator: Option<i64>,
)
    requires
        now <= amm.historical_oracle_data.last_oracle_price_twap_ts,
    ensures
        spec_update_oracle_price_twap(
            amm,
            now,
            sample,
            precomputed_reserve_price,
            clamp_denominator,
        ) == Ok::<AMM, ErrorCode>(amm),
{
}

/// The oracle update is idempotent: once a call has succeeded, repeating
/// the same call at the same timestamp returns the stored TWAP and leaves
/// the state exactly as the first call left it — twice equals once.
pub proof fn lemma_oracle_update_idempotent(
    amm: AMM,
    now: i64,
    sample: OraclePriceData,
    precomputed_reserve_price: Option<u64>,
    clamp_denominator: Option<i64>,
)
    requires
        spec_update_oracle_price_twap(
            amm,
            now,
            sample,
            precomputed_reserve_price,
            clamp_denominator,
        ) is Ok,
    ensures
        ({
            let once = spec_update_oracle_price_twap(
                amm,
                now,
                sample,
                precomputed_reserve_price,
                clamp_denominator,
            )->Ok_0;
            spec_update_oracle_price_twap(
                once,
                now,
                sample,
                precomputed_reserve_price,
                clamp_denominator,
            ) == Ok::<AMM, ErrorCode>(once)
        }),
{
    let once = spec_update_oracle_price_twap(
        amm,
        now,
        sample,
        precomputed_reserve_price,
        clamp_denominator,
    )->Ok_0;
    if once != amm {
        assert(once.historical_oracle_data.last_oracle_price_twap_ts == now);
        lemma_oracle_update_noop_without_elapsed_time(
            once,
            now,
            sample,
            precomputed_reserve_price,
            clamp_denominator,
        );
    }
}

/// Replaces the oracle volatility estimate with the distance between a
/// fresh price and a reference average, for callers that already hold a
/// reference; the timestamp keeps the update-call shape and the estimator
/// is memoryless.
pub fn update_amm_oracle_std(amm: &mut AMM, now: i64, price: u64, reference_price: u64) -> (r: Result<
    u64,
    ErrorCode,
>)
    ensures
        r == Ok::<u64, ErrorCode>(final(amm).oracle_std),
        final(amm).oracle_std == abs_int(price - reference_price),
        *final(amm) == (AMM { oracle_std: final(amm).oracle_std, ..*old(amm) }),
{
    let std = crate::stats::abs_diff_u64(price, reference_price);
    amm.oracle_std = std;
    Ok(std)
}

} // verus!
