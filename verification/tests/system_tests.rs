use lucra_core::error::LucraErrorCode;
use lucra_core::history::{HistoricPrice, PriceHistory};
use lucra_core::loan::MataLoan;
use lucra_core::penalty::{determine_penalty, LAMPORTS_PER_LUCRA, LAMPORTS_PER_SOL};
use lucra_core::price::Price;
use lucra_core::system::SystemState;

fn peg_state(tolerance: u32) -> SystemState {
    SystemState {
        loans_enabled: true,
        staking_enabled: false,
        peg_check_enabled: true,
        peg_broken: false,
        peg_tolerance: tolerance,
        collateral_requirement: 300,
        min_deposit: 0,
        epoch: 0,
        minimum_harvest_amount: 0,
        reward_fee: 0,
        lcp: 0,
        total_outstanding_mata: 0,
        maximum_outstanding_mata: u64::MAX,
        total_sol_collateral: 0,
    }
}

#[test]
fn peg_breaks_only_beyond_the_tolerance() {
    let mut state = peg_state(50); // five hundredths of the target
    state.update_peg(&Price::from_scaled(96, 2).unwrap()); // 0.96
    assert!(!state.peg_broken);
    state.update_peg(&Price::from_scaled(94, 2).unwrap()); // 0.94
    assert!(state.peg_broken);
    state.update_peg(&Price::from_scaled(104, 2).unwrap()); // 1.04
    assert!(!state.peg_broken);
    state.update_peg(&Price::from_scaled(106, 2).unwrap()); // 1.06
    assert!(state.peg_broken);
    // Exactly on the tolerance: not broken.
    state.update_peg(&Price::from_scaled(105, 2).unwrap()); // 1.05
    assert!(!state.peg_broken);
    state.update_peg(&Price::from_scaled(95, 2).unwrap()); // 0.95
    assert!(!state.peg_broken);
}

#[test]
fn outstanding_counter_is_capped_and_floored() {
    let mut state = peg_state(50);
    state.maximum_outstanding_mata = 100;
    state.add_outstanding_mata(60).unwrap();
    assert_eq!(state.total_outstanding_mata, 60);
    assert_eq!(
        state.add_outstanding_mata(41).unwrap_err(),
        LucraErrorCode::InvalidAmount
    );
    assert_eq!(state.total_outstanding_mata, 60);
    state.remove_outstanding_mata(100);
    assert_eq!(state.total_outstanding_mata, 0);
}

fn charged_ledger() -> PriceHistory {
    let mut prices = vec![
        HistoricPrice { date: 0, sol_price: 0, sol_decimals: 0, lucra_price: 0, lucra_decimals: 0 };
        30
    ];
    for (i, p) in prices.iter_mut().enumerate().take(4) {
        *p = HistoricPrice {
            date: (i as i64 + 1) * 86_400,
            sol_price: 5_000_000,
            sol_decimals: 6,
            lucra_price: 30_000,
            lucra_decimals: 6,
        };
    }
    PriceHistory { prices, interval_start: 0, update_counter: 0, last_update_timestamp: 0 }
}

#[test]
fn determining_twice_charges_nothing_the_second_time() {
    let ledger = charged_ledger();
    let mut loan = MataLoan {
        sol_collateral_amount: 10 * LAMPORTS_PER_SOL,
        staking_collateral_amount: 200 * LAMPORTS_PER_LUCRA,
        loan_amount: 233_333_333,
        collateral_rate: 300,
        ..Default::default()
    };
    let mata_price = Price::from_scaled(1, 0).unwrap();
    let now: i64 = 5 * 86_400 + 900; // the ledger's days have all elapsed

    determine_penalty(&mut loan, &ledger, &mata_price, now).unwrap();
    let first = loan.penalty_to_harvest;
    assert_eq!(first, 4 * 1_011_235_955);
    assert_eq!(loan.last_day_penalty_was_checked, now);

    // A second run with no intervening ledger update finds zero eligible
    // days and leaves the pending penalty unchanged.
    determine_penalty(&mut loan, &ledger, &mata_price, now + 3_600).unwrap();
    assert_eq!(loan.penalty_to_harvest, first);
}

#[test]
fn accrued_and_harvested_penalty_never_exceed_collateral() {
    let ledger = charged_ledger();
    let mut loan = MataLoan {
        sol_collateral_amount: 3_000_000_000,
        staking_collateral_amount: 200 * LAMPORTS_PER_LUCRA,
        loan_amount: 233_333_333,
        penalty_harvested: 2_900_000_000,
        collateral_rate: 300,
        ..Default::default()
    };
    let mata_price = Price::from_scaled(1, 0).unwrap();
    let now: i64 = 5 * 86_400 + 900;

    // Four days at the maximum band would charge 1_213_483_144, far more
    // than the 100_000_000 of collateral not yet harvested: the cap wins.
    determine_penalty(&mut loan, &ledger, &mata_price, now).unwrap();
    assert!(loan.penalty_to_harvest + loan.penalty_harvested <= loan.sol_collateral_amount);
    assert_eq!(loan.penalty_to_harvest, 100_000_000);
}

#[test]
fn determining_on_a_repaid_loan_is_refused() {
    let ledger = charged_ledger();
    let mut loan = MataLoan {
        sol_collateral_amount: 10 * LAMPORTS_PER_SOL,
        repaid: true,
        ..Default::default()
    };
    let mata_price = Price::from_scaled(1, 0).unwrap();
    let result = determine_penalty(&mut loan, &ledger, &mata_price, 86_400);
    assert_eq!(result.unwrap_err(), LucraErrorCode::InvalidAccountInput);
}

#[test]
fn determining_on_fully_harvested_collateral_is_refused() {
    let ledger = charged_ledger();
    let mut loan = MataLoan {
        sol_collateral_amount: 100,
        penalty_harvested: 100,
        ..Default::default()
    };
    let mata_price = Price::from_scaled(1, 0).unwrap();
    let result = determine_penalty(&mut loan, &ledger, &mata_price, 86_400);
    assert_eq!(result.unwrap_err(), LucraErrorCode::InvalidAmount);
}
