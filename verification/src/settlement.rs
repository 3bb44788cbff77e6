//! Settlement calculators: terminal price, expiry price and aggregate
//! trader profit.

use vstd::prelude::*;

use crate::constants::AMM_RESERVE_PRECISION_I128;
use crate::error::ErrorCode;
use crate::math::{abs_int, add_i128, add_u128, div_i128, div_u128, i128_to_i64, mul_i128, mul_u128,
    spec_div_trunc, sub_i128, sub_u128};
use crate::state::{spec_calculate_price, calculate_price, AMM};

verus! {

/// Magnitude of an `i128`, as `u128` (total, also at `i128::MIN`).
pub fn abs_i128_to_u128(a: i128) -> (r: u128)
    ensures
        r == abs_int(a as int),
{
    if a >= 0 {
        a as u128
    } else {
        ((-(a + 1)) as u128) + 1
    }
}

/// Aggregate unrealized profit of all traders against the AMM when the net
/// position is closed at `oracle_price`: the value of the net base position
/// at that price plus the recorded net quote amount. Positive means the
/// protocol owes the traders.
pub open spec fn spec_net_user_pnl(
    base_asset_amount_with_amm: i128,
    quote_asset_amount: i128,
    oracle_price: i64,
) -> Result<i128, ErrorCode> {
    let value = base_asset_amount_with_amm * oracle_price;
    if !(i128::MIN <= value <= i128::MAX) {
        Err(ErrorCode::MathOverflow)
    } else {
        let scaled = spec_div_trunc(value, AMM_RESERVE_PRECISION_I128 as int);
        let pnl = scaled + quote_asset_amount;
        if !(i128::MIN <= pnl <= i128::MAX) {
            Err(ErrorCode::MathOverflow)
        } else {
            Ok(pnl as i128)
        }
    }
}

/// Net profit owed to the traders at `oracle_price`; see
/// [`spec_net_user_pnl`].
pub fn calculate_net_user_pnl(amm: &AMM, oracle_price: i64) -> (r: Result<i128, ErrorCode>)
    ensures
        r == spec_net_user_pnl(
            amm.base_asset_amount_with_amm,
            amm.quote_asset_amount,
            oracle_price,
        ),
{
    let value = match mul_i128(amm.base_asset_amount_with_amm, oracle_price as i128) {
        Ok(v) => v,
        Err(e) => {
            return Err(e);
        },
    };
    let scaled = match div_i128(value, AMM_RESERVE_PRECISION_I128) {
        Ok(v) => v,
        Err(e) => {
            return Err(e);
        },
    };
    proof {
        lemma_div_trunc_bounded(value as int, AMM_RESERVE_PRECISION_I128 as int);
    }
    add_i128(scaled, amm.quote_asset_amount)
}

/// With no net base position (and hence no quote recorded against one),
/// the traders are owed exactly nothing at any price.
pub proof fn lemma_zero_position_zero_pnl(quote_asset_amount: i128, oracle_price: i64)
    requires
        quote_asset_amount == 0,
    ensures
        spec_net_user_pnl(0, quote_asset_amount, oracle_price) == Ok::<i128, ErrorCode>(0),
{
    assert(0 * oracle_price == 0);
    assert(spec_div_trunc(0, AMM_RESERVE_PRECISION_I128 as int) == 0);
}

/// Truncating division by a positive divisor never grows the magnitude
/// beyond the dividend's.
pub proof fn lemma_div_trunc_bounded(a: int, b: int)
    requires
        b >= 1,
    ensures
        abs_int(spec_div_trunc(a, b)) <= abs_int(a),
{
    let m = abs_int(a);
    assert(m / b <= m) by {
        vstd::arithmetic::div_mod::lemma_div_nonincreasing(m, b);
    }
    assert(m / b >= 0) by {
        vstd::arithmetic::div_mod::lemma_div_pos_is_pos(m, b);
    }
}

/// Truncating division is monotone in the dividend for a positive divisor.
pub proof fn lemma_div_trunc_monotone(a1: int, a2: int, b: int)
    requires
        a1 <= a2,
        b >= 1,
    ensures
        spec_div_trunc(a1, b) <= spec_div_trunc(a2, b),
{
    if a1 >= 0 {
        vstd::arithmetic::div_mod::lemma_div_is_ordered(a1, a2, b);
    } else if a2 < 0 {
        vstd::arithmetic::div_mod::lemma_div_is_ordered(-a2, -a1, b);
    } else {
        vstd::arithmetic::div_mod::lemma_div_pos_is_pos(-a1, b);
        vstd::arithmetic::div_mod::lemma_div_pos_is_pos(a2, b);
    }
}

/// Reserves and mark price that would prevail if the AMM's net position
/// were unwound to zero: the traders' net base is handed back to the
/// reserve, the quote reserve follows from the constant product
/// `k = sqrt_k^2`, and the price is read off the offset reserves.
pub open spec fn spec_terminal_price_and_reserves(amm: AMM) -> Result<(u64, u128, u128), ErrorCode> {
    let k = amm.sqrt_k * amm.sqrt_k;
    if k > u128::MAX {
        Err(ErrorCode::MathOverflow)
    } else {
        let shifted = amm.base_asset_reserve + amm.base_asset_amount_with_amm;
        if !(0 <= shifted <= u128::MAX) {
            Err(ErrorCode::MathOverflow)
        } else if shifted == 0 {
            Err(ErrorCode::DivisionByZero)
        } else {
            let new_quote = k / shifted;
            match spec_calculate_price(new_quote as u128, shifted as u128, amm.peg_multiplier) {
                Ok(price) => Ok((price, new_quote as u128, shifted as u128)),
                Err(e) => Err(e),
            }
        }
    }
}

/// Terminal (skew-neutral) price with the offset quote and base reserves
/// it is read from; see [`spec_terminal_price_and_reserves`].
pub fn calculate_terminal_price_and_reserves(amm: &AMM) -> (r: Result<(u64, u128, u128), ErrorCode>)
    ensures
        r == spec_terminal_price_and_reserves(*amm),
{
    let k = match mul_u128(amm.sqrt_k, amm.sqrt_k) {
        Ok(v) => v,
        Err(e) => {
            return Err(e);
        },
    };
    let magnitude = abs_i128_to_u128(amm.base_asset_amount_with_amm);
    let new_base = if amm.base_asset_amount_with_amm >= 0 {
        match add_u128(amm.base_asset_reserve, magnitude) {
            Ok(v) => v,
            Err(e) => {
                return Err(e);
            },
        }
    } else {
        match sub_u128(amm.base_asset_reserve, magnitude) {
            Ok(v) => v,
            Err(e) => {
                return Err(e);
            },
        }
    };
    let new_quote = match div_u128(k, new_base) {
        Ok(v) => v,
        Err(e) => {
            return Err(e);
        },
    };
    match calculate_price(new_quote, new_base, amm.peg_multiplier) {
        Ok(price) => Ok((price, new_quote, new_base)),
        Err(e) => Err(e),
    }
}

/// The settlement price of an expiring market, against a settlement budget
/// in quote units.
///
/// With no net position the oracle target is returned exactly. Otherwise
/// the price at which the traders' aggregate profit would equal the budget
/// is computed, capped at the oracle target, and nudged one unit against
/// the imbalanced side: net-long markets settle at most one unit below the
/// target, net-short markets at least one unit above.
pub open spec fn spec_expiry_price(
    base_asset_amount_with_amm: i128,
    quote_asset_amount: i128,
    target_price: i64,
    pnl_pool_amount: u128,
) -> Result<i64, ErrorCode> {
    if base_asset_amount_with_amm == 0 {
        Ok(target_price)
    } else if pnl_pool_amount > i128::MAX {
        Err(ErrorCode::MathOverflow)
    } else {
        let excess = pnl_pool_amount - quote_asset_amount;
        if !(i128::MIN <= excess <= i128::MAX) {
            Err(ErrorCode::MathOverflow)
        } else {
            let scaled = excess * AMM_RESERVE_PRECISION_I128;
            if !(i128::MIN <= scaled <= i128::MAX) {
                Err(ErrorCode::MathOverflow)
            } else {
                let best = spec_div_trunc(scaled, base_asset_amount_with_amm as int);
                if !(i128::MIN <= best <= i128::MAX) {
                    Err(ErrorCode::MathOverflow)
                } else {
                    let settled = if base_asset_amount_with_amm > 0 {
                        (if best <= target_price {
                            best
                        } else {
                            target_price as int
                        }) - 1
                    } else {
                        (if best >= target_price {
                            best
                        } else {
                            target_price as int
                        }) + 1
                    };
                    if !(i64::MIN <= settled <= i64::MAX) {
                        Err(ErrorCode::MathOverflow)
                    } else {
                        Ok(settled as i64)
                    }
                }
            }
        }
    }
}

/// Expiry settlement price; see [`spec_expiry_price`].
pub fn calculate_expiry_price(amm: &AMM, target_price: i64, pnl_pool_amount: u128) -> (r: Result<
    i64,
    ErrorCode,
>)
    ensures
        r == spec_expiry_price(
            amm.base_asset_amount_with_amm,
            amm.quote_asset_amount,
            target_price,
            pnl_pool_amount,
        ),
{
    if amm.base_asset_amount_with_amm == 0 {
        return Ok(target_price);
    }
    if pnl_pool_amount > i128::MAX as u128 {
        return Err(ErrorCode::MathOverflow);
    }
    let excess = match sub_i128(pnl_pool_amount as i128, amm.quote_asset_amount) {
        Ok(v) => v,
        Err(e) => {
            return Err(e);
        },
    };
    let scaled = match mul_i128(excess, AMM_RESERVE_PRECISION_I128) {
        Ok(v) => v,
        Err(e) => {
            return Err(e);
        },
    };
    let best = match div_i128(scaled, amm.base_asset_amount_with_amm) {
        Ok(v) => v,
        Err(e) => {
            return Err(e);
        },
    };
    let settled = if amm.base_asset_amount_with_amm > 0 {
        let capped = if best <= target_price as i128 {
            best
        } else {
            target_price as i128
        };
        match sub_i128(capped, 1) {
            Ok(v) => v,
            Err(e) => {
                return Err(e);
            },
        }
    } else {
        let capped = if best >= target_price as i128 {
            best
        } else {
            target_price as i128
        };
        match add_i128(capped, 1) {
            Ok(v) => v,
            Err(e) => {
                return Err(e);
            },
        }
    };
    i128_to_i64(settled)
}

/// With no net base position the expiry price is the oracle target
/// exactly, whatever the budget.
pub proof fn lemma_expiry_balanced_market(
    quote_asset_amount: i128,
    target_price: i64,
    pnl_pool_amount: u128,
)
    ensures
        spec_expiry_price(0, quote_asset_amount, target_price, pnl_pool_amount) == Ok::<
            i64,
            ErrorCode,
        >(target_price),
{
}

/// A larger settlement budget moves the expiry price monotonically toward
/// the favourable bound and never past it: with traders net long the price
/// rises with the budget but stays at least one unit below the oracle
/// target; with traders net short it falls with the budget but stays at
/// least one unit above.
pub proof fn lemma_expiry_monotone_in_budget(
    base_asset_amount_with_amm: i128,
    quote_asset_amount: i128,
    target_price: i64,
    budget_small: u128,
    budget_large: u128,
)
    requires
        base_asset_amount_with_amm != 0,
        budget_small <= budget_large,
        spec_expiry_price(
            base_asset_amount_with_amm,
            quote_asset_amount,
            target_price,
            budget_small,
        ) is Ok,
        spec_expiry_price(
            base_asset_amount_with_amm,
            quote_asset_amount,
            target_price,
            budget_large,
        ) is Ok,
    ensures
        base_asset_amount_with_amm > 0 ==> {
            let lo = spec_expiry_price(
                base_asset_amount_with_amm,
                quote_asset_amount,
                target_price,
                budget_small,
            )->Ok_0;
            let hi = spec_expiry_price(
                base_asset_amount_with_amm,
                quote_asset_amount,
                target_price,
                budget_large,
            )->Ok_0;
            lo <= hi <= target_price - 1
        },
        base_asset_amount_with_amm < 0 ==> {
            let lo = spec_expiry_price(
                base_asset_amount_with_amm,
                quote_asset_amount,
                target_price,
                budget_small,
            )->Ok_0;
            let hi = spec_expiry_price(
                base_asset_amount_with_amm,
                quote_asset_amount,
                target_price,
                budget_large,
            )->Ok_0;
            lo >= hi >= target_price + 1
        },
{
    let n = base_asset_amount_with_amm as int;
    let scaled_small = (budget_small - quote_asset_amount) * AMM_RESERVE_PRECISION_I128;
    let scaled_large = (budget_large - quote_asset_amount) * AMM_RESERVE_PRECISION_I128;
    assert(scaled_small <= scaled_large) by (nonlinear_arith)
        requires
            budget_small <= budget_large,
            AMM_RESERVE_PRECISION_I128 > 0,
            scaled_small == (budget_small - quote_asset_amount) * AMM_RESERVE_PRECISION_I128,
            scaled_large == (budget_large - quote_asset_amount) * AMM_RESERVE_PRECISION_I128,
    ;
    if base_asset_amount_with_amm > 0 {
        lemma_div_trunc_monotone(scaled_small, scaled_large, n);
    } else {
        lemma_div_trunc_monotone(scaled_small, scaled_large, -n);
        assert(spec_div_trunc(scaled_small, n) == -spec_div_trunc(scaled_small, -n));
        assert(spec_div_trunc(scaled_large, n) == -spec_div_trunc(scaled_large, -n));
    }
}

} // verus!
