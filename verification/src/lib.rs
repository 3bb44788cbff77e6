//! Pricing and settlement engine for a virtual automated market maker.
//!
//! The library keeps a market's pricing state: virtual reserves, peg,
//! time-weighted average prices (TWAPs) of the mark and of an external
//! oracle feed, and volatility estimates. It derives a mark price from the
//! reserves, folds oracle samples and trade prices into the TWAPs with
//! jump clamping, and computes the final settlement price and the traders'
//! aggregate unrealized profit when a market winds down.
//!
//! Every arithmetic step is overflow-checked: an update either succeeds and
//! writes all of its fields, or fails with [`error::ErrorCode`] and leaves
//! the state untouched.

pub mod constants;
pub mod error;
pub mod math;
pub mod mark;
pub mod oracle;
pub mod settlement;
pub mod stats;
pub mod state;

pub use constants::{AMM_RESERVE_PRECISION, PEG_PRECISION, PRICE_PRECISION, PRICE_PRECISION_I64,
    PRICE_PRECISION_U64, QUOTE_PRECISION};
pub use error::ErrorCode;
pub use mark::{estimate_best_bid_ask, update_amm_mark_std, update_mark_twap};
pub use oracle::{normalise_oracle_price, sanitize_new_price, update_amm_oracle_std, update_oracle_price_twap};
pub use settlement::{calculate_expiry_price, calculate_net_user_pnl, calculate_terminal_price_and_reserves};
pub use state::{HistoricalOracleData, OraclePriceData, PerpMarket, PerpPosition, PositionDirection, AMM};
