use lucra_core::rates::{calculate_annual_interest_rate, calculate_inflation, RatePeriod};

#[test]
fn test_calculate_annual_interest_rate() {
    let inflation_rate = 10; // 10%
    let amount = 10_000;
    let time = RatePeriod::one_week();
    let expected = 19;

    let actual = calculate_annual_interest_rate(inflation_rate, amount, &time).unwrap();
    assert_eq!(expected, actual);
}

#[test]
fn test_calculate_inflation() {
    // Should calculate a week's worth of inflation
    let inflation_rate = 10; // 10%
    let amount = 10_000;
    let expected = 19;

    let actual = calculate_inflation(inflation_rate, amount).unwrap();
    assert_eq!(expected, actual);
}

#[test]
fn one_day_charge_on_ten_sol_at_maximum_band() {
    // 3600% annually on 10_000_000_000 units for one day of the 356-day basis.
    let day = RatePeriod::one_day();
    let actual = calculate_annual_interest_rate(3600, 10_000_000_000, &day).unwrap();
    assert_eq!(actual, 1_011_235_955);
}

#[test]
fn oversized_rate_product_is_a_math_error() {
    let day = RatePeriod::one_day();
    let result = calculate_annual_interest_rate(u32::MAX, u64::MAX, &day);
    assert!(result.is_err());
}
