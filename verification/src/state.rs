//! The pricing state of one market and its collaborating records.

use vstd::prelude::*;

use crate::constants::{AMM_RESERVE_PRECISION, PEG_PRECISION, PRICE_PRECISION_I64, PRICE_PRECISION_U64,
    QUOTE_PRECISION};
use crate::error::ErrorCode;
use crate::math::{div_u128, mul_u128, u128_to_u64};

verus! {

/// Rolling statistics of the external oracle feed kept inside the market
/// state. Only derived values persist; raw samples are consumed.
pub struct HistoricalOracleData {
    /// Price of the last accepted oracle sample, at price precision.
    pub last_oracle_price: i64,
    /// Confidence width of the last accepted sample.
    pub last_oracle_conf: u64,
    /// Staleness delay of the last accepted sample, in slots.
    pub last_oracle_delay: i64,
    /// Full-window (funding period) EMA of the clamped oracle price.
    pub last_oracle_price_twap: i64,
    /// Five-minute-window EMA of the clamped oracle price.
    pub last_oracle_price_twap_5min: i64,
    /// Timestamp of the last oracle TWAP update.
    pub last_oracle_price_twap_ts: i64,
}

/// The zero-initialised oracle record of a fresh market.
pub open spec fn historical_oracle_data_default() -> HistoricalOracleData {
    HistoricalOracleData {
        last_oracle_price: 0,
        last_oracle_conf: 0,
        last_oracle_delay: 0,
        last_oracle_price_twap: 0,
        last_oracle_price_twap_5min: 0,
        last_oracle_price_twap_ts: 0,
    }
}

impl Default for HistoricalOracleData {
    fn default() -> (r: Self)
        ensures
            r == historical_oracle_data_default(),
    {
        HistoricalOracleData {
            last_oracle_price: 0,
            last_oracle_conf: 0,
            last_oracle_delay: 0,
            last_oracle_price_twap: 0,
            last_oracle_price_twap_5min: 0,
            last_oracle_price_twap_ts: 0,
        }
    }
}

/// The virtual automated market maker of one market: reserves, pricing
/// parameters and rolling statistics.
pub struct AMM {
    /// Virtual base reserve, at reserve precision.
    pub base_asset_reserve: u128,
    /// Virtual quote reserve, at reserve precision.
    pub quote_asset_reserve: u128,
    /// Square root of the constant-product invariant `k`.
    pub sqrt_k: u128,
    /// Converts quote reserve units into currency terms; always positive in
    /// a live market.
    pub peg_multiplier: u128,
    /// Net base position the traders collectively hold against the AMM
    /// (positive: traders are net long).
    pub base_asset_amount_with_amm: i128,
    /// Net quote amount recorded against that position.
    pub quote_asset_amount: i128,
    /// Symmetric default spread parameter; when a trade carries no
    /// direction, the mark tracker pushes the bid and ask estimates half
    /// this amount below and above the trade.
    pub base_spread: u32,
    /// Directional spread parameter of the ask side; the mark tracker
    /// pushes a short trade's ask estimate half this amount above its
    /// anchor.
    pub long_spread: u32,
    /// Directional spread parameter of the bid side; the mark tracker
    /// pushes a long trade's bid estimate half this amount below its
    /// anchor.
    pub short_spread: u32,
    /// Cap on the effective spread.
    pub max_spread: u32,
    /// EMA of the mid of the bid and ask estimates.
    pub last_mark_price_twap: u64,
    /// EMA of the bid price estimate.
    pub last_bid_price_twap: u64,
    /// EMA of the ask price estimate.
    pub last_ask_price_twap: u64,
    /// Timestamp of the last mark TWAP update.
    pub last_mark_price_twap_ts: i64,
    /// Dispersion estimate of trade prices around the mark TWAP.
    pub mark_std: u64,
    /// Dispersion estimate of oracle prices around the oracle TWAP.
    pub oracle_std: u64,
    /// Length of the full TWAP window, in seconds.
    pub funding_period: i64,
    /// The clamp-limited oracle price of the last oracle update.
    pub last_oracle_normalised_price: i64,
    /// Rolling statistics of the oracle feed.
    pub historical_oracle_data: HistoricalOracleData,
}

/// The all-zero market state; fields are set at initialisation.
pub open spec fn amm_default() -> AMM {
    AMM {
        base_asset_reserve: 0,
        quote_asset_reserve: 0,
        sqrt_k: 0,
        peg_multiplier: 0,
        base_asset_amount_with_amm: 0,
        quote_asset_amount: 0,
        base_spread: 0,
        long_spread: 0,
        short_spread: 0,
        max_spread: 0,
        last_mark_price_twap: 0,
        last_bid_price_twap: 0,
        last_ask_price_twap: 0,
        last_mark_price_twap_ts: 0,
        mark_std: 0,
        oracle_std: 0,
        funding_period: 0,
        last_oracle_normalised_price: 0,
        historical_oracle_data: historical_oracle_data_default(),
    }
}

impl Default for AMM {
    fn default() -> (r: Self)
        ensures
            r == amm_default(),
    {
        AMM {
            base_asset_reserve: 0,
            quote_asset_reserve: 0,
            sqrt_k: 0,
            peg_multiplier: 0,
            base_asset_amount_with_amm: 0,
            quote_asset_amount: 0,
            base_spread: 0,
            long_spread: 0,
            short_spread: 0,
            max_spread: 0,
            last_mark_price_twap: 0,
            last_bid_price_twap: 0,
            last_ask_price_twap: 0,
            last_mark_price_twap_ts: 0,
            mark_std: 0,
            oracle_std: 0,
            funding_period: 0,
            last_oracle_normalised_price: 0,
            historical_oracle_data: HistoricalOracleData::default(),
        }
    }
}

/// Price of the base asset implied by the reserves, at price precision:
/// `quote_reserve * peg / base_reserve`, each step overflow-checked.
pub open spec fn spec_calculate_price(quote: u128, base: u128, peg: u128) -> Result<u64, ErrorCode> {
    if quote * peg > u128::MAX {
        Err(ErrorCode::MathOverflow)
    } else if base == 0 {
        Err(ErrorCode::DivisionByZero)
    } else if quote * peg / base as int > u64::MAX {
        Err(ErrorCode::MathOverflow)
    } else {
        Ok((quote * peg / base as int) as u64)
    }
}

/// Mark price implied by a pair of reserves and a peg multiplier.
pub fn calculate_price(quote_asset_reserve: u128, base_asset_reserve: u128, peg_multiplier: u128) -> (r:
    Result<u64, ErrorCode>)
    ensures
        r == spec_calculate_price(quote_asset_reserve, base_asset_reserve, peg_multiplier),
{
    let pegged = match mul_u128(quote_asset_reserve, peg_multiplier) {
        Ok(v) => v,
        Err(e) => {
            return Err(e);
        },
    };
    let q = match div_u128(pegged, base_asset_reserve) {
        Ok(v) => v,
        Err(e) => {
            return Err(e);
        },
    };
    u128_to_u64(q)
}

impl AMM {
    /// The live mark price implied by the current reserves.
    pub fn reserve_price(&self) -> (r: Result<u64, ErrorCode>)
        ensures
            r == spec_calculate_price(
                self.quote_asset_reserve,
                self.base_asset_reserve,
                self.peg_multiplier,
            ),
    {
        calculate_price(self.quote_asset_reserve, self.base_asset_reserve, self.peg_multiplier)
    }

    /// A plain test market: unit peg, hundredfold reserves, an hour-long
    /// funding period and no position.
    pub fn default_test() -> (r: Self)
        ensures
            r == (AMM {
                base_asset_reserve: (100 * AMM_RESERVE_PRECISION) as u128,
                quote_asset_reserve: (100 * AMM_RESERVE_PRECISION) as u128,
                sqrt_k: (100 * AMM_RESERVE_PRECISION) as u128,
                peg_multiplier: PEG_PRECISION,
                max_spread: 1000u32,
                funding_period: 3600i64,
                historical_oracle_data: (HistoricalOracleData {
                    last_oracle_price: PRICE_PRECISION_I64,
                    ..historical_oracle_data_default()
                }),
                ..amm_default()
            }),
    {
        let mut amm = AMM::default();
        amm.base_asset_reserve = 100 * AMM_RESERVE_PRECISION;
        amm.quote_asset_reserve = 100 * AMM_RESERVE_PRECISION;
        amm.sqrt_k = 100 * AMM_RESERVE_PRECISION;
        amm.peg_multiplier = PEG_PRECISION;
        amm.max_spread = 1000;
        amm.funding_period = 3600;
        amm.historical_oracle_data.last_oracle_price = PRICE_PRECISION_I64;
        amm
    }
}

/// A transient oracle sample handed in by the price-oracle collaborator.
pub struct OraclePriceData {
    /// Signed fixed-point price, at price precision.
    pub price: i64,
    /// Confidence interval width around the price.
    pub confidence: u64,
    /// Slots elapsed since the sample was produced.
    pub delay: i64,
    /// Whether the oracle aggregated enough data points; the caller's
    /// staleness policy branches on this, the engine stores it as given.
    pub has_sufficient_number_of_data_points: bool,
}

/// Side of a trade against the AMM.
#[derive(Clone, Copy, Debug)]
pub enum PositionDirection {
    /// The taker bought the base asset: the trade executed at the ask.
    Long,
    /// The taker sold the base asset: the trade executed at the bid.
    Short,
}

/// One trader's open position; read-only input to the settlement
/// calculators.
pub struct PerpPosition {
    /// Market the position belongs to.
    pub market_index: u16,
    /// Signed base amount held, at reserve precision.
    pub base_asset_amount: i64,
    /// Signed quote amount recorded against the base, at quote precision.
    pub quote_asset_amount: i64,
}

/// The zero position.
pub open spec fn perp_position_default() -> PerpPosition {
    PerpPosition { market_index: 0, base_asset_amount: 0, quote_asset_amount: 0 }
}

impl Default for PerpPosition {
    fn default() -> (r: Self)
        ensures
            r == perp_position_default(),
    {
        PerpPosition { market_index: 0, base_asset_amount: 0, quote_asset_amount: 0 }
    }
}

/// One perpetual-futures market: its AMM plus margin parameters owned by
/// the margin collaborator.
pub struct PerpMarket {
    /// Index of the market.
    pub market_index: u16,
    /// The market's pricing state.
    pub amm: AMM,
    /// Initial margin ratio, in parts per ten thousand.
    pub margin_ratio_initial: u32,
    /// Maintenance margin ratio, in parts per ten thousand.
    pub margin_ratio_maintenance: u32,
    /// Insurance-fund margin scaling factor.
    pub imf_factor: u32,
    /// Weight of unrealized profit toward initial margin.
    pub unrealized_pnl_initial_asset_weight: u32,
    /// Weight of unrealized profit toward maintenance margin.
    pub unrealized_pnl_maintenance_asset_weight: u32,
}

/// The all-zero market record.
pub open spec fn perp_market_default() -> PerpMarket {
    PerpMarket {
        market_index: 0,
        amm: amm_default(),
        margin_ratio_initial: 0,
        margin_ratio_maintenance: 0,
        imf_factor: 0,
        unrealized_pnl_initial_asset_weight: 0,
        unrealized_pnl_maintenance_asset_weight: 0,
    }
}

impl Default for PerpMarket {
    fn default() -> (r: Self)
        ensures
            r == perp_market_default(),
    {
        PerpMarket {
            market_index: 0,
            amm: AMM::default(),
            margin_ratio_initial: 0,
            margin_ratio_maintenance: 0,
            imf_factor: 0,
            unrealized_pnl_initial_asset_weight: 0,
            unrealized_pnl_maintenance_asset_weight: 0,
        }
    }
}

impl PerpMarket {
    /// A bitcoin-like test market: traders are net short one base unit
    /// taken on at 19000, and the oracle sits at 19400.
    pub fn default_btc_test() -> (r: Self)
        ensures
            r.amm.base_asset_amount_with_amm == -1_000_000_000i128,
            r.amm.quote_asset_amount == (19000 * QUOTE_PRECISION) as i128,
            r.amm.historical_oracle_data.last_oracle_price == 19400 * PRICE_PRECISION_I64,
            r.amm.historical_oracle_data.last_oracle_price_twap == 19400 * PRICE_PRECISION_I64,
            r.amm.base_asset_reserve == (65 * AMM_RESERVE_PRECISION) as u128,
            r.amm.sqrt_k == (64 * AMM_RESERVE_PRECISION) as u128,
            r.margin_ratio_initial == 1000u32,
            r.margin_ratio_maintenance == 500u32,
    {
        let mut market = PerpMarket::default();
        market.amm.base_asset_reserve = 65 * AMM_RESERVE_PRECISION;
        market.amm.quote_asset_reserve = 63_015_384_615;
        market.amm.sqrt_k = 64 * AMM_RESERVE_PRECISION;
        market.amm.peg_multiplier = 19_400_000_000;
        market.amm.base_asset_amount_with_amm = -1_000_000_000;
        market.amm.quote_asset_amount = 19_000_000_000;
        market.amm.mark_std = PRICE_PRECISION_U64;
        market.amm.oracle_std = PRICE_PRECISION_U64;
        market.amm.funding_period = 3600;
        market.amm.historical_oracle_data.last_oracle_price = 19_400_000_000;
        market.amm.historical_oracle_data.last_oracle_price_twap = 19_400_000_000;
        market.amm.historical_oracle_data.last_oracle_price_twap_5min = 19_400_000_000;
        market.margin_ratio_initial = 1000;
        market.margin_ratio_maintenance = 500;
        market
    }
}

} // verus!
