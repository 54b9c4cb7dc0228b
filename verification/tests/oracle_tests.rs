use lucra_core::error::LucraErrorCode;
use lucra_core::oracle::{
    calc_oracle_price, get_lucra_price, get_mata_price, get_oracle_price, get_price, get_sol_price,
    get_volume, parse_oracle_feed, Oracle, OracleFeed, PriceSource, ORACLE_DATA_LEN,
    ORACLE_EXPO_OFFSET, ORACLE_PRICE_OFFSET, ORACLE_STATUS_OFFSET, ORACLE_VALID_SLOT_OFFSET,
};
use lucra_core::price::Price;

#[test]
fn test_calc_oracle_price() {
    let result = calc_oracle_price(28_050_000, 6, 1_357_892, 1, 1_357_892).unwrap();
    let expected = Price::from_scaled(28_050_000, 6).unwrap(); // 28.05
    assert_eq!(result, expected);
}

#[test]
fn test_calc_oracle_price_should_fail_when_oracle_status_invalid() {
    let result = calc_oracle_price(28_050_000, 6, 1_357_892, 0, 1_357_892);
    assert_eq!(result.unwrap_err(), LucraErrorCode::OracleStatusNotValid);
}

#[test]
fn test_calc_oracle_price_should_fail_when_slot_is_stale() {
    let result = calc_oracle_price(28_050_000, 6, 1_357_892, 1, 1_358_000);
    assert_eq!(result.unwrap_err(), LucraErrorCode::OracleStale);
}

#[test]
fn checkpoint_on_the_staleness_boundary_is_accepted() {
    // Exactly the tolerance apart: still valid.
    let result = calc_oracle_price(5, 0, 100, 1, 125);
    assert_eq!(result.unwrap(), Price::from_scaled(5, 0).unwrap());
    // One slot beyond: stale.
    let result = calc_oracle_price(5, 0, 100, 1, 126);
    assert_eq!(result.unwrap_err(), LucraErrorCode::OracleStale);
}

#[test]
fn oversized_exponent_is_a_math_error() {
    assert_eq!(get_price(1, 39).unwrap_err(), LucraErrorCode::MathError);
}

#[test]
fn raw_record_fields_decode_little_endian() {
    let mut data = vec![0u8; ORACLE_DATA_LEN];
    data[ORACLE_PRICE_OFFSET] = 0xB0;
    data[ORACLE_PRICE_OFFSET + 1] = 0xAC;
    data[ORACLE_PRICE_OFFSET + 2] = 0xAB;
    data[ORACLE_VALID_SLOT_OFFSET] = 0x44;
    data[ORACLE_VALID_SLOT_OFFSET + 1] = 0xB8;
    data[ORACLE_VALID_SLOT_OFFSET + 2] = 0x14;
    data[ORACLE_EXPO_OFFSET] = 6;
    data[ORACLE_STATUS_OFFSET] = 1;

    let feed = parse_oracle_feed(&data).unwrap();
    assert_eq!(feed.price, 11_250_864);
    assert_eq!(feed.valid_slot, 1_357_892);
    assert_eq!(feed.expo, 6);
    assert_eq!(feed.status, 1);

    let price = get_oracle_price(&data, 1_357_892).unwrap();
    assert_eq!(price, Price::from_scaled(11_250_864, 6).unwrap());
}

#[test]
fn truncated_raw_record_is_rejected() {
    let data = vec![0u8; ORACLE_DATA_LEN - 1];
    assert_eq!(
        parse_oracle_feed(&data).unwrap_err(),
        LucraErrorCode::InvalidAccountInput
    );
}

#[test]
fn native_coin_price_takes_the_lower_quote() {
    let usdc = OracleFeed { price: 20_000_000, expo: 6, valid_slot: 100, status: 1 };
    let usdt = OracleFeed { price: 19_950_000, expo: 6, valid_slot: 100, status: 1 };
    let p = get_sol_price(&usdc, &usdt, 100).unwrap();
    assert_eq!(p, Price::from_scaled(19_950_000, 6).unwrap());
    // Either stale feed poisons the cross-rate.
    let stale = OracleFeed { valid_slot: 10, ..usdt };
    assert_eq!(
        get_sol_price(&usdc, &stale, 100).unwrap_err(),
        LucraErrorCode::OracleStale
    );
}

#[test]
fn cross_rates_are_exact() {
    let usdc = OracleFeed { price: 20_000_000, expo: 6, valid_slot: 100, status: 1 };
    let usdt = OracleFeed { price: 21_000_000, expo: 6, valid_slot: 100, status: 1 };
    // One governance token trades for 0.05 native coin: a dollar exactly.
    let lucra_sol = OracleFeed { price: 50_000, expo: 6, valid_slot: 100, status: 1 };
    let lucra = get_lucra_price(&lucra_sol, &usdc, &usdt, 100).unwrap();
    assert!(lucra.eq_value(&Price::from_scaled(1, 0).unwrap()));
    // One native coin trades for 20 synthetic units: a dollar exactly.
    let sol_mata = OracleFeed { price: 20_000_000, expo: 6, valid_slot: 100, status: 1 };
    let mata = get_mata_price(&sol_mata, &usdc, &usdt, 100).unwrap();
    assert!(mata.eq_value(&Price::from_scaled(1, 0).unwrap()));
    // A zero base feed cannot be inverted.
    let zero = OracleFeed { price: 0, expo: 6, valid_slot: 100, status: 1 };
    assert_eq!(
        get_mata_price(&zero, &usdc, &usdt, 100).unwrap_err(),
        LucraErrorCode::MathError
    );
}

#[test]
fn cross_rates_propagate_the_first_failing_feed() {
    let good = OracleFeed { price: 20_000_000, expo: 6, valid_slot: 100, status: 1 };
    let stale = OracleFeed { valid_slot: 10, ..good };
    let halted = OracleFeed { status: 0, ..good };
    assert_eq!(
        get_lucra_price(&stale, &good, &good, 100).unwrap_err(),
        LucraErrorCode::OracleStale
    );
    assert_eq!(
        get_lucra_price(&good, &halted, &good, 100).unwrap_err(),
        LucraErrorCode::OracleStatusNotValid
    );
    assert_eq!(
        get_mata_price(&good, &good, &stale, 100).unwrap_err(),
        LucraErrorCode::OracleStale
    );
}

#[test]
fn volume_lookup_finds_the_listed_market() {
    let oracle = Oracle {
        sources: vec![
            PriceSource { market: 11, volume: 400 },
            PriceSource { market: 22, volume: 900 },
        ],
    };
    assert_eq!(get_volume(&oracle, 22).unwrap(), 900);
    assert_eq!(
        get_volume(&oracle, 33).unwrap_err(),
        LucraErrorCode::InvalidAccountInput
    );
}
