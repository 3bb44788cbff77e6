use vamm_pricing::{calculate_expiry_price, calculate_net_user_pnl, calculate_terminal_price_and_reserves,
    update_mark_twap, update_oracle_price_twap};
use vamm_pricing::oracle::{normalise_oracle_price, sanitize_new_price};
use vamm_pricing::mark::estimate_best_bid_ask;
use vamm_pricing::state::calculate_price;
use vamm_pricing::{ErrorCode, HistoricalOracleData, OraclePriceData, PositionDirection, AMM};
use vamm_pricing::{AMM_RESERVE_PRECISION, PEG_PRECISION, PRICE_PRECISION, PRICE_PRECISION_I64,
    PRICE_PRECISION_U64};

fn oracle_tracking_amm(prev: i64) -> AMM {
    AMM {
        base_asset_reserve: 2 * AMM_RESERVE_PRECISION,
        quote_asset_reserve: 2 * AMM_RESERVE_PRECISION,
        peg_multiplier: 33 * PEG_PRECISION,
        funding_period: 3600,
        last_mark_price_twap_ts: prev,
        historical_oracle_data: HistoricalOracleData {
            last_oracle_price: 32 * PRICE_PRECISION_I64,
            last_oracle_price_twap: 32 * PRICE_PRECISION_I64,
            last_oracle_price_twap_5min: 32 * PRICE_PRECISION_I64,
            last_oracle_price_twap_ts: prev,
            ..HistoricalOracleData::default()
        },
        ..AMM::default()
    }
}

#[test]
fn net_pnl_is_zero_for_flat_market_at_any_price() {
    let amm = AMM {
        base_asset_reserve: 7 * AMM_RESERVE_PRECISION,
        quote_asset_reserve: 7 * AMM_RESERVE_PRECISION,
        peg_multiplier: 5 * PEG_PRECISION,
        base_asset_amount_with_amm: 0,
        quote_asset_amount: 0,
        ..AMM::default()
    };
    let prices: [i64; 5] = [1, 37, 5 * PRICE_PRECISION_I64, 22050 * PRICE_PRECISION_I64, i64::MAX];
    let mut i: usize = 0;
    while i < prices.len() {
        assert_eq!(calculate_net_user_pnl(&amm, prices[i]).unwrap(), 0);
        i += 1;
    }
}

#[test]
fn expiry_price_monotone_in_budget_and_capped() {
    // traders net long two base units taken on at thirty each
    let amm = AMM {
        base_asset_amount_with_amm: 2_000_000_000,
        quote_asset_amount: -60_000_000,
        ..AMM::default()
    };
    let oracle: i64 = 40 * PRICE_PRECISION_I64;
    assert_eq!(calculate_expiry_price(&amm, oracle, 0).unwrap(), 29_999_999);
    assert_eq!(calculate_expiry_price(&amm, oracle, 2_000_000).unwrap(), 30_999_999);
    assert_eq!(calculate_expiry_price(&amm, oracle, 20_000_000).unwrap(), 39_999_999);
    assert_eq!(calculate_expiry_price(&amm, oracle, 500_000_000).unwrap(), 39_999_999);

    let mut last = calculate_expiry_price(&amm, oracle, 0).unwrap();
    let mut budget: u128 = 0;
    while budget <= 40_000_000 {
        let price = calculate_expiry_price(&amm, oracle, budget).unwrap();
        assert!(price >= last);
        assert!(price <= oracle - 1);
        last = price;
        budget += 1_000_000;
    }

    // traders net short: the cap mirrors one unit above the oracle
    let short = AMM {
        base_asset_amount_with_amm: -2_000_000_000,
        quote_asset_amount: 60_000_000,
        ..AMM::default()
    };
    let mut last = calculate_expiry_price(&short, oracle, 0).unwrap();
    assert_eq!(last, 40_000_001);
    let mut budget: u128 = 0;
    while budget <= 40_000_000 {
        let price = calculate_expiry_price(&short, oracle, budget).unwrap();
        assert!(price <= last);
        assert!(price >= oracle + 1);
        last = price;
        budget += 1_000_000;
    }
}

#[test]
fn expiry_price_is_oracle_for_balanced_market() {
    let amm = AMM { base_asset_amount_with_amm: 0, quote_asset_amount: 123, ..AMM::default() };
    let oracle: i64 = 21_051_929_600;
    let budgets: [u128; 4] = [0, 1, 111_111_110, u128::MAX];
    let mut i: usize = 0;
    while i < budgets.len() {
        assert_eq!(calculate_expiry_price(&amm, oracle, budgets[i]).unwrap(), oracle);
        i += 1;
    }
}

#[test]
fn mark_twap_stays_between_bid_and_ask_twaps() {
    let prev: i64 = 1656682258;
    let mut amm = AMM {
        base_asset_reserve: 2 * AMM_RESERVE_PRECISION,
        quote_asset_reserve: 2 * AMM_RESERVE_PRECISION,
        peg_multiplier: 30 * PEG_PRECISION,
        base_spread: 400,
        long_spread: 2000,
        short_spread: 900,
        last_mark_price_twap: 30 * PRICE_PRECISION_U64,
        last_bid_price_twap: 29 * PRICE_PRECISION_U64,
        last_ask_price_twap: 31 * PRICE_PRECISION_U64,
        last_mark_price_twap_ts: prev,
        funding_period: 3600,
        historical_oracle_data: HistoricalOracleData {
            last_oracle_price: 30 * PRICE_PRECISION_I64,
            ..HistoricalOracleData::default()
        },
        ..AMM::default()
    };
    let mut now: i64 = prev;
    let mut step = 0u64;
    while step < 400 {
        now += (step % 7) as i64;
        let price: u64 = 25_000_000 + (step * 73_019) % 12_000_000;
        amm.historical_oracle_data.last_oracle_price = (price as i64) + 250_000 - ((step * 101)
            % 500_000) as i64;
        let direction = if step % 3 == 0 {
            PositionDirection::Short
        } else {
            PositionDirection::Long
        };
        update_mark_twap(&mut amm, now, Some(price), Some(direction), None).unwrap();
        assert!(amm.last_bid_price_twap <= amm.last_mark_price_twap);
        assert!(amm.last_mark_price_twap <= amm.last_ask_price_twap);
        step += 1;
    }
}

#[test]
fn oracle_volatility_decays_to_one_unit_under_identical_samples() {
    let prev: i64 = 1667387000;
    let mut amm = oracle_tracking_amm(prev);
    let sample = OraclePriceData {
        price: 33 * PRICE_PRECISION_I64,
        confidence: 0,
        delay: 1,
        has_sufficient_number_of_data_points: true,
    };
    let mut now: i64 = prev + 1;
    update_oracle_price_twap(&mut amm, now, &sample, None, None).unwrap();
    let mut last_std = amm.oracle_std;
    while now < prev + 30_000 {
        now += 1;
        update_oracle_price_twap(&mut amm, now, &sample, None, None).unwrap();
        if last_std > 1 {
            assert!(amm.oracle_std <= last_std);
        }
        last_std = amm.oracle_std;
    }
    assert!(amm.oracle_std <= 1);
    assert!(
        (amm.historical_oracle_data.last_oracle_price_twap - sample.price).unsigned_abs() <= 1
    );
}

#[test]
fn oracle_update_is_idempotent_at_an_unchanged_timestamp() {
    let prev: i64 = 1667387000;
    let mut amm = oracle_tracking_amm(prev);
    let sample = OraclePriceData {
        price: 34 * PRICE_PRECISION_I64,
        confidence: 10_000,
        delay: 1,
        has_sufficient_number_of_data_points: true,
    };
    let now: i64 = prev + 60;
    let first = update_oracle_price_twap(&mut amm, now, &sample, None, None).unwrap();
    let full = amm.historical_oracle_data.last_oracle_price_twap;
    let five = amm.historical_oracle_data.last_oracle_price_twap_5min;
    let std = amm.oracle_std;
    let norm = amm.last_oracle_normalised_price;
    let ts = amm.historical_oracle_data.last_oracle_price_twap_ts;

    // the same call again at the same timestamp changes nothing
    let second = update_oracle_price_twap(&mut amm, now, &sample, None, None).unwrap();
    assert_eq!(second, first);
    assert_eq!(amm.historical_oracle_data.last_oracle_price_twap, full);
    assert_eq!(amm.historical_oracle_data.last_oracle_price_twap_5min, five);
    assert_eq!(amm.oracle_std, std);
    assert_eq!(amm.last_oracle_normalised_price, norm);
    assert_eq!(amm.historical_oracle_data.last_oracle_price_twap_ts, ts);

    // even a different sample is ignored while no time has passed, and a
    // backwards clock cannot move the timestamp
    let other = OraclePriceData {
        price: 55 * PRICE_PRECISION_I64,
        confidence: 0,
        delay: 3,
        has_sufficient_number_of_data_points: true,
    };
    update_oracle_price_twap(&mut amm, now, &other, None, None).unwrap();
    update_oracle_price_twap(&mut amm, now - 30, &other, None, None).unwrap();
    assert_eq!(amm.historical_oracle_data.last_oracle_price_twap, full);
    assert_eq!(amm.historical_oracle_data.last_oracle_price, sample.price);
    assert_eq!(amm.historical_oracle_data.last_oracle_price_twap_ts, ts);
}

#[test]
fn normalise_pulls_sample_toward_reserve_price_by_confidence() {
    let amm = AMM {
        base_asset_reserve: 2 * AMM_RESERVE_PRECISION,
        quote_asset_reserve: 2 * AMM_RESERVE_PRECISION,
        peg_multiplier: 40 * PEG_PRECISION,
        ..AMM::default()
    };
    // sample above the reserve price: lowered by its confidence
    let above = OraclePriceData {
        price: 40_021_280,
        confidence: 10_000,
        delay: 1,
        has_sufficient_number_of_data_points: true,
    };
    assert_eq!(normalise_oracle_price(&amm, &above, None).unwrap(), 40_011_280);
    // sample below: would be lifted past the margin, so it stays raw
    let below = OraclePriceData {
        price: 39_991_280,
        confidence: 12_500,
        delay: 14,
        has_sufficient_number_of_data_points: true,
    };
    assert_eq!(normalise_oracle_price(&amm, &below, None).unwrap(), 39_991_280);
    // a precomputed reserve price overrides the reserves
    assert_eq!(normalise_oracle_price(&amm, &above, Some(41_000_000)).unwrap(), 40_031_280);
}

#[test]
fn sanitize_clamps_to_a_third_of_the_stored_twap_per_second() {
    assert_eq!(sanitize_new_price(130_000_873, 13_000_000, 1, None).unwrap(), 17_333_333);
    assert_eq!(sanitize_new_price(5_000_000, 13_000_000, 1, None).unwrap(), 8_666_667);
    assert_eq!(sanitize_new_price(14_000_000, 13_000_000, 1, None).unwrap(), 14_000_000);
    // the band grows with the elapsed time, so a long gap may carry a
    // proportionally larger move
    assert_eq!(sanitize_new_price(130_000_873, 13_000_000, 2, None).unwrap(), 21_666_666);
    assert_eq!(sanitize_new_price(130_000_873, 13_000_000, 300, None).unwrap(), 130_000_873);
    // a zero denominator or a zero stored TWAP disables the clamp
    assert_eq!(sanitize_new_price(130_000_873, 13_000_000, 1, Some(0)).unwrap(), 130_000_873);
    assert_eq!(sanitize_new_price(130_000_873, 0, 1, None).unwrap(), 130_000_873);
    // a custom denominator narrows the band
    assert_eq!(sanitize_new_price(130_000_873, 13_000_000, 1, Some(100)).unwrap(), 13_130_000);
}

#[test]
fn bid_ask_estimates_follow_trade_side() {
    // long trade above the oracle: ask is the trade, bid anchors on the
    // oracle less half the short spread
    assert_eq!(
        estimate_best_bid_ask(22_021_280, 22_051_280, Some(PositionDirection::Long), 500, 5000, 500)
            .unwrap(),
        (22_021_030, 22_051_280)
    );
    // short trade below the oracle: bid is the trade, ask anchors on the
    // oracle plus half the long spread
    assert_eq!(
        estimate_best_bid_ask(39_991_280, 39_971_280, Some(PositionDirection::Short), 500, 5000, 500)
            .unwrap(),
        (39_971_280, 39_993_780)
    );
    // no direction: the trade, pushed half the base spread apart, stands
    // for both sides
    assert_eq!(
        estimate_best_bid_ask(40_000_000, 39_971_280, None, 500, 5000, 500).unwrap(),
        (39_971_030, 39_971_530)
    );
}

#[test]
fn arithmetic_failures_surface_each_error_code() {
    // division by zero: no base reserve
    let empty = AMM { quote_asset_reserve: AMM_RESERVE_PRECISION, peg_multiplier: PEG_PRECISION,
        ..AMM::default() };
    assert_eq!(empty.reserve_price(), Err(ErrorCode::DivisionByZero));

    // overflow in the pegged quote product
    assert_eq!(calculate_price(u128::MAX, 1, 2), Err(ErrorCode::MathOverflow));

    // a settlement budget beyond the signed range
    let skewed = AMM { base_asset_amount_with_amm: 1, ..AMM::default() };
    assert_eq!(
        calculate_expiry_price(&skewed, PRICE_PRECISION_I64, u128::MAX),
        Err(ErrorCode::MathOverflow)
    );

    // unwinding a short bigger than the whole base reserve
    let lopsided = AMM {
        base_asset_reserve: AMM_RESERVE_PRECISION,
        quote_asset_reserve: AMM_RESERVE_PRECISION,
        sqrt_k: AMM_RESERVE_PRECISION,
        peg_multiplier: PEG_PRECISION,
        base_asset_amount_with_amm: -2_000_000_000,
        ..AMM::default()
    };
    assert_eq!(
        calculate_terminal_price_and_reserves(&lopsided),
        Err(ErrorCode::MathOverflow)
    );

    // net position times price beyond the signed range
    let huge = AMM { base_asset_amount_with_amm: i128::MAX, ..AMM::default() };
    assert_eq!(
        calculate_net_user_pnl(&huge, 2 * PRICE_PRECISION_I64),
        Err(ErrorCode::MathOverflow)
    );
}

#[test]
fn terminal_price_unwinds_the_net_position() {
    // net short: handing one base unit back to the traders leaves the
    // reserves exactly at sqrt_k, so the terminal price is the peg
    let amm = AMM {
        base_asset_reserve: 512_295_081_967,
        quote_asset_reserve: 488 * AMM_RESERVE_PRECISION,
        sqrt_k: 500 * AMM_RESERVE_PRECISION,
        peg_multiplier: 22_100_000_000,
        base_asset_amount_with_amm: -12_295_081_967,
        ..AMM::default()
    };
    let (price, quote, base) = calculate_terminal_price_and_reserves(&amm).unwrap();
    assert_eq!(base, 500 * AMM_RESERVE_PRECISION);
    assert_eq!(quote, 500 * AMM_RESERVE_PRECISION);
    assert_eq!(price, 22_100_000_000);

    // a flat market is already at its terminal price
    let flat = AMM {
        base_asset_reserve: 2 * AMM_RESERVE_PRECISION,
        quote_asset_reserve: 2 * AMM_RESERVE_PRECISION,
        sqrt_k: 2 * AMM_RESERVE_PRECISION,
        peg_multiplier: 32 * PEG_PRECISION,
        base_asset_amount_with_amm: 0,
        ..AMM::default()
    };
    let (price, _, _) = calculate_terminal_price_and_reserves(&flat).unwrap();
    assert_eq!(price, flat.reserve_price().unwrap());
    assert_eq!(price, (32 * PRICE_PRECISION) as u64);
}
