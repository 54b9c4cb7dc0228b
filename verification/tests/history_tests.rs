use lucra_core::error::LucraErrorCode;
use lucra_core::history::{day_start, HistoricPrice, PriceHistory, PRICE_HISTORY_SLOTS};
use lucra_core::price::Price;

#[test]
fn day_start_floors_to_the_day_boundary() {
    assert_eq!(day_start(0), 0);
    assert_eq!(day_start(7), 0);
    assert_eq!(day_start(86_399), 0);
    assert_eq!(day_start(86_400), 86_400);
    assert_eq!(day_start(90_000), 86_400);
    assert_eq!(day_start(-1), -86_400);
    assert_eq!(day_start(-86_400), -86_400);
}

#[test]
fn a_new_ledger_is_empty_with_the_window_open_at_creation() {
    let ph = PriceHistory::new(500);
    assert_eq!(ph.prices.len(), PRICE_HISTORY_SLOTS);
    assert_eq!(ph.interval_start, 500);
    assert_eq!(ph.update_counter, 0);
    assert!(ph.prices.iter().all(|e| e.sol_price == 0 && e.lucra_price == 0 && e.date == 0));
}

#[test]
fn first_sample_of_a_window_fills_the_oldest_slot() {
    let mut ph = PriceHistory::new(500);
    let sol = Price::from_scaled(20, 0).unwrap();
    let lucra = Price::from_scaled(15, 1).unwrap(); // 1.5
    ph.record_sample(3_700, &sol, &lucra).unwrap();
    assert_eq!(ph.update_counter, 1);
    assert_eq!(ph.last_update_timestamp, 3_700);
    assert_eq!(ph.interval_start, 500);
    let e = ph.prices[0];
    assert_eq!(e.date, 500);
    assert_eq!(e.sol_price, 20_000_000);
    assert_eq!(e.lucra_price, 1_500_000);
    assert_eq!(e.sol_decimals, 6);
}

#[test]
fn later_samples_of_the_same_window_average_in() {
    let mut ph = PriceHistory::new(500);
    let sol = Price::from_scaled(20, 0).unwrap();
    let lucra = Price::from_scaled(1, 0).unwrap();
    ph.record_sample(3_700, &sol, &lucra).unwrap();
    let sol2 = Price::from_scaled(30, 0).unwrap();
    let lucra2 = Price::from_scaled(2, 0).unwrap();
    ph.record_sample(7_300, &sol2, &lucra2).unwrap();
    assert_eq!(ph.update_counter, 2);
    let e = ph.prices[0];
    // (30 * 10^6 + 20 * 10^6) / 2 and (2 * 10^6 + 1 * 10^6) / 2.
    assert_eq!(e.sol_price, 25_000_000);
    assert_eq!(e.lucra_price, 1_500_000);
}

#[test]
fn samples_inside_the_spacing_window_are_refused() {
    let mut ph = PriceHistory::new(500);
    let p = Price::from_scaled(1, 0).unwrap();
    ph.record_sample(3_700, &p, &p).unwrap();
    let result = ph.record_sample(3_800, &p, &p);
    assert_eq!(result.unwrap_err(), LucraErrorCode::InsufficientTimePassed);
    assert_eq!(ph.update_counter, 1);
}

#[test]
fn rollover_zeroes_an_undersampled_window_and_opens_a_new_day() {
    let mut ph = PriceHistory::new(500);
    let p = Price::from_scaled(9, 0).unwrap();
    ph.record_sample(3_700, &p, &p).unwrap();
    // Far past the window's end, with only one sample recorded: the closed
    // day's prices are zeroed, the window advances to the current day
    // boundary, and the oldest slot takes the first sample of the new day.
    let fresh = Price::from_scaled(11, 0).unwrap();
    ph.record_sample(90_000, &fresh, &fresh).unwrap();
    assert_eq!(ph.interval_start, 86_400);
    assert_eq!(ph.update_counter, 1);
    let stale = ph.prices[0];
    assert_eq!(stale.date, 500);
    assert_eq!(stale.sol_price, 0);
    assert_eq!(stale.lucra_price, 0);
    let fresh_slot = ph.prices[1];
    assert_eq!(fresh_slot.date, 86_400);
    assert_eq!(fresh_slot.sol_price, 11_000_000);
}

#[test]
fn rollover_keeps_an_adequately_sampled_window() {
    let mut ph = PriceHistory::new(500);
    ph.update_counter = 12;
    let mut prices = ph.prices.clone();
    prices[0] = HistoricPrice {
        date: 500,
        sol_price: 7_000_000,
        sol_decimals: 6,
        lucra_price: 3_000_000,
        lucra_decimals: 6,
    };
    ph.prices = prices;
    let fresh = Price::from_scaled(11, 0).unwrap();
    ph.record_sample(90_000, &fresh, &fresh).unwrap();
    // Twelve samples were enough: the closed day's prices survive.
    let kept = ph.prices[0];
    assert_eq!(kept.sol_price, 7_000_000);
    assert_eq!(kept.lucra_price, 3_000_000);
    assert_eq!(ph.interval_start, 86_400);
}

#[test]
fn a_sample_before_the_window_is_an_invalid_state() {
    let mut ph = PriceHistory::new(5_000);
    let p = Price::from_scaled(1, 0).unwrap();
    let result = ph.record_sample(4_000, &p, &p);
    assert_eq!(result.unwrap_err(), LucraErrorCode::InvalidState);
}
