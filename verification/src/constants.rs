//! Fixed-point precision constants and window lengths.

use vstd::prelude::*;

verus! {

/// Scale of prices: one currency unit is `10^6`.
pub const PRICE_PRECISION: u128 = 1_000_000;
/// [`PRICE_PRECISION`] as `u64`, for unsigned price fields.
pub const PRICE_PRECISION_U64: u64 = 1_000_000;
/// [`PRICE_PRECISION`] as `i64`, for signed oracle prices.
pub const PRICE_PRECISION_I64: i64 = 1_000_000;
/// Scale of the peg multiplier that converts quote reserve units into
/// currency terms.
pub const PEG_PRECISION: u128 = 1_000_000;
/// Scale of quote-denominated amounts (settlement budgets, profit and
/// loss).
pub const QUOTE_PRECISION: u128 = 1_000_000;
/// Scale of the virtual base and quote reserves.
pub const AMM_RESERVE_PRECISION: u128 = 1_000_000_000;
/// [`AMM_RESERVE_PRECISION`] as `i128`, for signed positions.
pub const AMM_RESERVE_PRECISION_I128: i128 = 1_000_000_000;

/// Length of the short TWAP window, in seconds.
pub const FIVE_MINUTE: i64 = 300;

/// Default denominator of the TWAP update price band: an incoming price may
/// move away from the stored TWAP by at most `twap / 3` per elapsed second,
/// so the clamp limits the rate of TWAP movement.
pub const DEFAULT_MAX_TWAP_UPDATE_PRICE_BAND_DENOMINATOR: i64 = 3;

/// Divisor that yields 2.5 basis points of the reserve price, the margin
/// kept between a normalised oracle price and the reserve price.
pub const RESERVE_PRICE_MARGIN_DENOMINATOR: i64 = 4000;

} // verus!
