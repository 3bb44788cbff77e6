//! The mark TWAP tracker: bid and ask estimates derived from each trade,
//! their EMAs, the mid mark TWAP and the mark volatility estimate.

use vstd::prelude::*;

use crate::error::ErrorCode;
use crate::math::{abs_int, max_i64, spec_div_trunc, sub_i64};
use crate::oracle::{sanitize_new_price, spec_sanitize_new_price};
use crate::state::{PositionDirection, AMM};
use crate::stats::{spec_weighted_twap, weighted_twap};

verus! {

/// Bid and ask estimates implied by one trade. The traded side is the
/// trade price itself: a long takes the ask, a short hits the bid. The
/// opposite side is anchored at the last oracle price, kept on the
/// conservative side of the trade, and moved one half of the opposing
/// directional spread further out. Without a direction the symmetric base
/// spread stands in for both directional spreads: the bid sits half of it
/// below the trade, the ask half of it above.
pub open spec fn spec_estimate_bid_ask(
    oracle_price: int,
    trade_price: int,
    direction: Option<PositionDirection>,
    base_spread: int,
    long_spread: int,
    short_spread: int,
) -> Result<(u64, u64), ErrorCode> {
    if oracle_price < 0 {
        Err(ErrorCode::MathOverflow)
    } else {
        match direction {
            Some(PositionDirection::Long) => {
                let anchored = if oracle_price <= trade_price {
                    oracle_price
                } else {
                    trade_price
                };
                let bid = anchored - short_spread / 2;
                if bid < 0 {
                    Err(ErrorCode::MathOverflow)
                } else {
                    Ok((bid as u64, trade_price as u64))
                }
            },
            Some(PositionDirection::Short) => {
                let anchored = if oracle_price >= trade_price {
                    oracle_price
                } else {
                    trade_price
                };
                let ask = anchored + long_spread / 2;
                if ask > u64::MAX {
                    Err(ErrorCode::MathOverflow)
                } else {
                    Ok((trade_price as u64, ask as u64))
                }
            },
            None => {
                let bid = trade_price - base_spread / 2;
                let ask = trade_price + base_spread / 2;
                if bid < 0 {
                    Err(ErrorCode::MathOverflow)
                } else if ask > u64::MAX {
                    Err(ErrorCode::MathOverflow)
                } else {
                    Ok((bid as u64, ask as u64))
                }
            },
        }
    }
}

/// Estimates the best bid and ask around one trade; see
/// [`spec_estimate_bid_ask`].
pub fn estimate_best_bid_ask(
    oracle_price: i64,
    trade_price: u64,
    direction: Option<PositionDirection>,
    base_spread: u32,
    long_spread: u32,
    short_spread: u32,
) -> (r: Result<(u64, u64), ErrorCode>)
    ensures
        r == spec_estimate_bid_ask(
            oracle_price as int,
            trade_price as int,
            direction,
            base_spread as int,
            long_spread as int,
            short_spread as int,
        ),
{
    if oracle_price < 0 {
        return Err(ErrorCode::MathOverflow);
    }
    let oracle = oracle_price as u64;
    match direction {
        Some(PositionDirection::Long) => {
            let anchored = if oracle <= trade_price {
                oracle
            } else {
                trade_price
            };
            let discount = (short_spread / 2) as u64;
            if anchored < discount {
                Err(ErrorCode::MathOverflow)
            } else {
                Ok((anchored - discount, trade_price))
            }
        },
        Some(PositionDirection::Short) => {
            let anchored = if oracle >= trade_price {
                oracle
            } else {
                trade_price
            };
            let premium = (long_spread / 2) as u64;
            match anchored.checked_add(premium) {
                Some(ask) => Ok((trade_price, ask)),
                None => Err(ErrorCode::MathOverflow),
            }
        },
        None => {
            let half = (base_spread / 2) as u64;
            if trade_price < half {
                return Err(ErrorCode::MathOverflow);
            }
            match trade_price.checked_add(half) {
                Some(ask) => Ok((trade_price - half, ask)),
                None => Err(ErrorCode::MathOverflow),
            }
        },
    }
}

/// The whole mark update over one trade, as a function of the incoming
/// state: the new state, or the arithmetic failure that aborts the call.
///
/// Bid and ask estimates are clamped into the elapsed-scaled band around
/// their own TWAPs and folded in with weight `elapsed / funding_period`.
/// Elapsed is floored at one time unit, so two trades in the same instant
/// still both count; the retained weight is floored at one as well, so a
/// single trade is always averaged with the stored estimate and never
/// erases it outright — trades are discrete events, unlike the continuous
/// oracle feed, whose windows do reset after a whole quiet window. This
/// also keeps the update meaningful for a zero-length funding period. The
/// ask TWAP is kept at or above the bid TWAP, the mark TWAP is their
/// midpoint, and the mark volatility estimate becomes the distance between
/// the trade price and the previous mark TWAP.
pub open spec fn spec_update_mark_twap(
    amm: AMM,
    now: i64,
    precomputed_trade_price: Option<u64>,
    direction: Option<PositionDirection>,
    clamp_denominator: Option<i64>,
) -> Result<AMM, ErrorCode> {
    let oracle_price = amm.historical_oracle_data.last_oracle_price as int;
    let trade_ok: Result<u64, ErrorCode> = match precomputed_trade_price {
        Some(p) => Ok(p),
        None => if oracle_price < 0 {
            Err(ErrorCode::MathOverflow)
        } else {
            Ok(oracle_price as u64)
        },
    };
    match trade_ok {
        Err(e) => Err(e),
        Ok(trade_price) => match spec_estimate_bid_ask(
            oracle_price,
            trade_price as int,
            direction,
            amm.base_spread as int,
            amm.long_spread as int,
            amm.short_spread as int,
        ) {
            Err(e) => Err(e),
            Ok((bid_estimate, ask_estimate)) => {
                if bid_estimate > i64::MAX || ask_estimate > i64::MAX
                    || amm.last_bid_price_twap > i64::MAX || amm.last_ask_price_twap > i64::MAX {
                    Err(ErrorCode::MathOverflow)
                } else if !(i64::MIN <= now - amm.last_mark_price_twap_ts <= i64::MAX) {
                    Err(ErrorCode::MathOverflow)
                } else {
                    let elapsed: int = if now - amm.last_mark_price_twap_ts >= 1 {
                        now - amm.last_mark_price_twap_ts
                    } else {
                        1
                    };
                    match spec_sanitize_new_price(
                        bid_estimate as int,
                        amm.last_bid_price_twap as int,
                        elapsed,
                        clamp_denominator,
                    ) {
                        Err(e) => Err(e),
                        Ok(bid_capped) => match spec_sanitize_new_price(
                            ask_estimate as int,
                            amm.last_ask_price_twap as int,
                            elapsed,
                            clamp_denominator,
                        ) {
                            Err(e) => Err(e),
                            Ok(ask_capped) => {
                                if !(i64::MIN <= amm.funding_period - elapsed <= i64::MAX) {
                                    Err(ErrorCode::MathOverflow)
                                } else {
                                    let retained: int = if amm.funding_period - elapsed >= 1 {
                                        amm.funding_period - elapsed
                                    } else {
                                        1
                                    };
                                    spec_mark_twap_fold(
                                        amm,
                                        now,
                                        trade_price,
                                        bid_capped as int,
                                        ask_capped as int,
                                        elapsed,
                                        retained,
                                    )
                                }
                            },
                        },
                    }
                }
            },
        },
    }
}

/// Folds the clamped bid and ask into their TWAPs and assembles the new
/// state: the tail of [`spec_update_mark_twap`].
pub open spec fn spec_mark_twap_fold(
    amm: AMM,
    now: i64,
    trade_price: u64,
    bid_capped: int,
    ask_capped: int,
    elapsed: int,
    retained: int,
) -> Result<AMM, ErrorCode> {
    match spec_weighted_twap(bid_capped, amm.last_bid_price_twap as int, elapsed, retained) {
        Err(e) => Err(e),
        Ok(bid_twap) => match spec_weighted_twap(
            ask_capped,
            amm.last_ask_price_twap as int,
            elapsed,
            retained,
        ) {
            Err(e) => Err(e),
            Ok(ask_twap) => {
                let ask_ordered: int = if ask_twap >= bid_twap {
                    ask_twap as int
                } else {
                    bid_twap as int
                };
                let mark = spec_div_trunc(bid_twap + ask_ordered, 2);
                if bid_twap < 0 || ask_ordered > u64::MAX || mark < 0 || mark > u64::MAX {
                    Err(ErrorCode::MathOverflow)
                } else {
                    Ok(
                        AMM {
                            last_bid_price_twap: bid_twap as u64,
                            last_ask_price_twap: ask_ordered as u64,
                            last_mark_price_twap: mark as u64,
                            last_mark_price_twap_ts: now,
                            mark_std: abs_int(trade_price - amm.last_mark_price_twap) as u64,
                            ..amm
                        },
                    )
                }
            },
        },
    }
}

/// The midpoint of two ordered values lies between them.
proof fn lemma_mid_between(lo: int, hi: int)
    requires
        lo <= hi,
    ensures
        lo <= spec_div_trunc(lo + hi, 2) <= hi,
{
    vstd::arithmetic::div_mod::lemma_div_multiples_vanish(lo, 2);
    vstd::arithmetic::div_mod::lemma_div_multiples_vanish(hi, 2);
    vstd::arithmetic::div_mod::lemma_div_multiples_vanish(-lo, 2);
    vstd::arithmetic::div_mod::lemma_div_multiples_vanish(-hi, 2);
    if lo + hi >= 0 {
        vstd::arithmetic::div_mod::lemma_div_is_ordered(2 * lo, lo + hi, 2);
        vstd::arithmetic::div_mod::lemma_div_is_ordered(lo + hi, 2 * hi, 2);
    } else {
        vstd::arithmetic::div_mod::lemma_div_is_ordered(-(lo + hi), 2 * (-lo), 2);
        vstd::arithmetic::div_mod::lemma_div_is_ordered(2 * (-hi), -(lo + hi), 2);
    }
}

/// Folds one trade into the market's bid, ask and mark TWAPs and its mark
/// volatility estimate, and returns the new mark TWAP. Either all fields
/// are written, or the state is left untouched; see
/// [`spec_update_mark_twap`]. On success the invariant
/// `bid TWAP <= mark TWAP <= ask TWAP` holds.
pub fn update_mark_twap(
    amm: &mut AMM,
    now: i64,
    precomputed_trade_price: Option<u64>,
    direction: Option<PositionDirection>,
    sanitize_clamp_denominator: Option<i64>,
) -> (r: Result<u64, ErrorCode>)
    ensures
        ({
            match spec_update_mark_twap(
                *old(amm),
                now,
                precomputed_trade_price,
                direction,
                sanitize_clamp_denominator,
            ) {
                Ok(updated) => r == Ok::<u64, ErrorCode>(updated.last_mark_price_twap) && *final(amm)
                    == updated && updated.last_bid_price_twap <= updated.last_mark_price_twap
                    <= updated.last_ask_price_twap,
                Err(e) => r == Err::<u64, ErrorCode>(e) && *final(amm) == *old(amm),
            }
        }),
{
    let oracle_price = amm.historical_oracle_data.last_oracle_price;
    let trade_price = match precomputed_trade_price {
        Some(p) => p,
        None => {
            if oracle_price < 0 {
                return Err(ErrorCode::MathOverflow);
            }
            oracle_price as u64
        },
    };
    let (bid_estimate, ask_estimate) = match estimate_best_bid_ask(
        oracle_price,
        trade_price,
        direction,
        amm.base_spread,
        amm.long_spread,
        amm.short_spread,
    ) {
        Ok(v) => v,
        Err(e) => {
            return Err(e);
        },
    };
    if bid_estimate > i64::MAX as u64 || ask_estimate > i64::MAX as u64 || amm.last_bid_price_twap
        > i64::MAX as u64 || amm.last_ask_price_twap > i64::MAX as u64 {
        return Err(ErrorCode::MathOverflow);
    }
    let gap = match sub_i64(now, amm.last_mark_price_twap_ts) {
        Ok(v) => v,
        Err(e) => {
            return Err(e);
        },
    };
    let elapsed = max_i64(1, gap);
    let bid_capped = match sanitize_new_price(
        bid_estimate as i64,
        amm.last_bid_price_twap as i64,
        elapsed,
        sanitize_clamp_denominator,
    ) {
        Ok(v) => v,
        Err(e) => {
            return Err(e);
        },
    };
    let ask_capped = match sanitize_new_price(
        ask_estimate as i64,
        amm.last_ask_price_twap as i64,
        elapsed,
        sanitize_clamp_denominator,
    ) {
        Ok(v) => v,
        Err(e) => {
            return Err(e);
        },
    };
    let remaining = match sub_i64(amm.funding_period, elapsed) {
        Ok(v) => v,
        Err(e) => {
            return Err(e);
        },
    };
    let retained = max_i64(1, remaining);
    let bid_twap = match weighted_twap(bid_capped, amm.last_bid_price_twap as i64, elapsed, retained) {
        Ok(v) => v,
        Err(e) => {
            return Err(e);
        },
    };
    let ask_twap = match weighted_twap(ask_capped, amm.last_ask_price_twap as i64, elapsed, retained) {
        Ok(v) => v,
        Err(e) => {
            return Err(e);
        },
    };
    let ask_ordered = if ask_twap >= bid_twap {
        ask_twap
    } else {
        bid_twap
    };
    let mid: i128 = ((bid_twap as i128) + (ask_ordered as i128)) / 2;
    proof {
        lemma_mid_between(bid_twap as int, ask_ordered as int);
    }
    if bid_twap < 0 || mid < 0 {
        return Err(ErrorCode::MathOverflow);
    }
    let mark = mid as u64;
    amm.mark_std = crate::stats::abs_diff_u64(trade_price, amm.last_mark_price_twap);
    amm.last_bid_price_twap = bid_twap as u64;
    amm.last_ask_price_twap = ask_ordered as u64;
    amm.last_mark_price_twap = mark;
    amm.last_mark_price_twap_ts = now;
    Ok(mark)
}

/// Replaces the mark volatility estimate with the distance between a fresh
/// trade price and a reference average; the timestamp keeps the
/// update-call shape and the estimator is memoryless.
pub fn update_amm_mark_std(amm: &mut AMM, now: i64, price: u64, ema_price: u64) -> (r: Result<
    u64,
    ErrorCode,
>)
    ensures
        r == Ok::<u64, ErrorCode>(final(amm).mark_std),
        final(amm).mark_std == abs_int(price - ema_price),
        *final(amm) == (AMM { mark_std: final(amm).mark_std, ..*old(amm) }),
{
    let std = crate::stats::abs_diff_u64(price, ema_price);
    amm.mark_std = std;
    Ok(std)
}

} // verus!
