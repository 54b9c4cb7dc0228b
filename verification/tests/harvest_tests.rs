use lucra_core::error::LucraErrorCode;
use lucra_core::lifecycle::{
    harvest_penalty_begin, harvest_penalty_settle, net_of_reward_fee, AmmTypes,
};
use lucra_core::loan::MataLoan;
use lucra_core::oracle::{
    check_raydium_has_more_volume, verify_orca_has_more_volume, verify_raydium_has_more_volume,
    Oracle, PriceSource,
};
use lucra_core::system::SystemState;

const RAYDIUM_MARKET: u64 = 1;
const ORCA_MARKET: u64 = 2;

fn oracle_with_volumes(raydium: u64, orca: u64) -> Oracle {
    Oracle {
        sources: vec![
            PriceSource { market: RAYDIUM_MARKET, volume: raydium },
            PriceSource { market: ORCA_MARKET, volume: orca },
        ],
    }
}

fn harvest_state() -> SystemState {
    SystemState {
        loans_enabled: true,
        staking_enabled: true,
        peg_check_enabled: false,
        peg_broken: false,
        peg_tolerance: 50,
        collateral_requirement: 300,
        min_deposit: 1_000_000,
        epoch: 1_000,
        minimum_harvest_amount: 500,
        reward_fee: 25,
        lcp: 100,
        total_outstanding_mata: 10_000,
        maximum_outstanding_mata: u64::MAX,
        total_sol_collateral: 50_000,
    }
}

#[test]
fn venue_volume_checks_reject_the_thinner_pool() {
    let oracle = oracle_with_volumes(900, 400);
    assert!(verify_raydium_has_more_volume(&oracle, RAYDIUM_MARKET, ORCA_MARKET).is_ok());
    assert_eq!(
        verify_orca_has_more_volume(&oracle, RAYDIUM_MARKET, ORCA_MARKET).unwrap_err(),
        LucraErrorCode::InvalidAmount
    );
    assert!(check_raydium_has_more_volume(&oracle, RAYDIUM_MARKET, ORCA_MARKET).unwrap());
}

#[test]
fn harvest_against_the_lower_volume_venue_is_rejected() {
    let state = harvest_state();
    let loan = MataLoan { penalty_to_harvest: 800, sol_collateral_amount: 1_000, ..Default::default() };
    let oracle = oracle_with_volumes(900, 400);
    // Orca carries less volume than Raydium for this pair: refused.
    let result = harvest_penalty_begin(
        &state,
        &loan,
        &oracle,
        AmmTypes::Orca,
        RAYDIUM_MARKET,
        ORCA_MARKET,
    );
    assert_eq!(result.unwrap_err(), LucraErrorCode::InvalidAmount);
    // The higher-volume venue is accepted.
    let amount = harvest_penalty_begin(
        &state,
        &loan,
        &oracle,
        AmmTypes::Raydium,
        RAYDIUM_MARKET,
        ORCA_MARKET,
    )
    .unwrap();
    assert_eq!(amount, 800);
}

#[test]
fn harvest_against_an_unlisted_market_is_rejected() {
    let state = harvest_state();
    let loan = MataLoan { penalty_to_harvest: 800, sol_collateral_amount: 1_000, ..Default::default() };
    let oracle = Oracle { sources: vec![PriceSource { market: RAYDIUM_MARKET, volume: 900 }] };
    let result = harvest_penalty_begin(
        &state,
        &loan,
        &oracle,
        AmmTypes::Raydium,
        RAYDIUM_MARKET,
        ORCA_MARKET,
    );
    assert_eq!(result.unwrap_err(), LucraErrorCode::InvalidAccountInput);
}

#[test]
fn harvest_without_a_venue_is_not_implemented() {
    let state = harvest_state();
    let loan = MataLoan { penalty_to_harvest: 800, sol_collateral_amount: 1_000, ..Default::default() };
    let oracle = oracle_with_volumes(900, 400);
    let result = harvest_penalty_begin(
        &state,
        &loan,
        &oracle,
        AmmTypes::Unset,
        RAYDIUM_MARKET,
        ORCA_MARKET,
    );
    assert_eq!(result.unwrap_err(), LucraErrorCode::NotImplemented);
}

#[test]
fn harvest_below_the_minimum_is_refused() {
    let state = harvest_state();
    let loan = MataLoan { penalty_to_harvest: 499, sol_collateral_amount: 1_000, ..Default::default() };
    let oracle = oracle_with_volumes(400, 900);
    let result = harvest_penalty_begin(
        &state,
        &loan,
        &oracle,
        AmmTypes::Orca,
        RAYDIUM_MARKET,
        ORCA_MARKET,
    );
    assert_eq!(result.unwrap_err(), LucraErrorCode::NoPenaltyToHarvest);
}

#[test]
fn harvest_of_a_repaid_loan_is_refused() {
    let state = harvest_state();
    let loan = MataLoan {
        penalty_to_harvest: 800,
        sol_collateral_amount: 1_000,
        repaid: true,
        ..Default::default()
    };
    let oracle = oracle_with_volumes(400, 900);
    let result = harvest_penalty_begin(
        &state,
        &loan,
        &oracle,
        AmmTypes::Orca,
        RAYDIUM_MARKET,
        ORCA_MARKET,
    );
    assert_eq!(result.unwrap_err(), LucraErrorCode::InvalidAccountInput);
}

#[test]
fn the_reward_fee_is_netted_out_of_the_proceeds() {
    assert_eq!(net_of_reward_fee(1_000, 25).unwrap(), 975);
    assert_eq!(net_of_reward_fee(10, 25).unwrap_err(), LucraErrorCode::MathError);
}

#[test]
fn settling_a_harvest_advances_every_counter() {
    let mut state = harvest_state();
    let mut loan = MataLoan {
        penalty_to_harvest: 800,
        penalty_harvested: 100,
        sol_collateral_amount: 1_000,
        ..Default::default()
    };
    harvest_penalty_settle(&mut state, &mut loan, 750);
    assert_eq!(loan.penalty_harvested, 900);
    assert_eq!(loan.penalty_to_harvest, 0);
    assert_eq!(state.total_outstanding_mata, 10_000 - 750);
    assert_eq!(state.total_sol_collateral, 50_000 - 800);
    // The record invariant holds afterwards.
    assert!(loan.penalty_harvested <= loan.sol_collateral_amount);
}
