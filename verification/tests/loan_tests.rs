use lucra_core::error::LucraErrorCode;
use lucra_core::lifecycle::{
    add_collateral, close_out_mata_loan, create_mata_loan, create_mata_loan_with_locked_stake,
    get_loan_amount, get_required_stake_value, OriginateOutcome,
};
use lucra_core::loan::{LoanType, MataLoan, StakingAccount};
use lucra_core::penalty::LAMPORTS_PER_SOL;
use lucra_core::price::Price;
use lucra_core::system::SystemState;

fn base_state() -> SystemState {
    SystemState {
        loans_enabled: true,
        staking_enabled: true,
        peg_check_enabled: false,
        peg_broken: false,
        peg_tolerance: 50,
        collateral_requirement: 300,
        min_deposit: 1_000_000,
        epoch: 1_000,
        minimum_harvest_amount: 100,
        reward_fee: 25,
        lcp: 100,
        total_outstanding_mata: 0,
        maximum_outstanding_mata: u64::MAX,
        total_sol_collateral: 0,
    }
}

#[test]
fn test_get_required_stake() {
    let lcp = 100;
    let lamports = 10 * LAMPORTS_PER_SOL; // 10 sol
    let sol_price = Price::from_scaled(10, 0).unwrap();

    // lcp of 100% asks for the full deposit value.
    let expected = Price::from_scaled(100, 0).unwrap();
    let actual = get_required_stake_value(lcp, lamports, &sol_price).unwrap();

    assert!(actual.eq_value(&expected));

    let lcp = 50;
    let expected = Price::from_scaled(50, 0).unwrap();
    let actual = get_required_stake_value(lcp, lamports, &sol_price).unwrap();

    assert!(actual.eq_value(&expected));

    let lcp = 150;
    let expected = Price::from_scaled(150, 0).unwrap();
    let actual = get_required_stake_value(lcp, lamports, &sol_price).unwrap();

    assert!(actual.eq_value(&expected));
}

#[test]
fn loan_amount_is_collateral_value_over_requirement() {
    // 200 dollars at a 300% requirement: floor(200/3 * 10^6).
    let value = Price::from_scaled(200, 0).unwrap();
    assert_eq!(get_loan_amount(&value, 300).unwrap(), 66_666_666);
    // A zero requirement cannot be divided by.
    assert_eq!(
        get_loan_amount(&value, 0).unwrap_err(),
        LucraErrorCode::MathError
    );
}

#[test]
fn round_trip_originate_then_close() {
    let mut state = base_state();
    let sol_price = Price::from_scaled(20, 0).unwrap();
    let owner = 7;

    // Originate 10 native-coin units at a recorded price of 20 dollars and
    // a 300% collateral requirement.
    let outcome = create_mata_loan(
        &mut state,
        owner,
        10 * LAMPORTS_PER_SOL,
        &sol_price,
        None,
        5_000,
    )
    .unwrap();
    let mut loan = match outcome {
        OriginateOutcome::Opened(l) => l,
        OriginateOutcome::Refunded => panic!("origination should not refund"),
    };
    assert_eq!(loan.loan_amount, 66_666_666);
    assert_eq!(loan.sol_collateral_amount, 10 * LAMPORTS_PER_SOL);
    assert_eq!(loan.market_price, 20);
    assert_eq!(loan.loan_type, LoanType::Default);
    assert!(!loan.repaid);
    assert_eq!(state.total_outstanding_mata, 66_666_666);
    assert_eq!(state.total_sol_collateral, 10 * LAMPORTS_PER_SOL);

    // Closing immediately fails the time-lock.
    let early = close_out_mata_loan(&mut state, &mut loan, owner, 66_666_666, 5_000);
    assert_eq!(early.unwrap_err(), LucraErrorCode::Timelock);
    assert!(!loan.repaid);

    // After the epoch has elapsed, with a sufficient balance, it succeeds.
    let returned = close_out_mata_loan(&mut state, &mut loan, owner, 66_666_666, 6_001).unwrap();
    assert_eq!(returned, 10 * LAMPORTS_PER_SOL);
    assert!(loan.repaid);
    assert_eq!(state.total_sol_collateral, 0);
}

#[test]
fn origination_refunds_while_peg_is_broken() {
    let mut state = base_state();
    state.peg_check_enabled = true;
    let sol_price = Price::from_scaled(20, 0).unwrap();
    // 0.90 deviates from the peg by far more than 50 thousandths.
    let mata_price = Price::from_scaled(90, 2).unwrap();

    let outcome = create_mata_loan(
        &mut state,
        7,
        10 * LAMPORTS_PER_SOL,
        &sol_price,
        Some(&mata_price),
        5_000,
    )
    .unwrap();
    assert!(matches!(outcome, OriginateOutcome::Refunded));
    assert!(state.peg_broken);
    assert_eq!(state.total_outstanding_mata, 0);
    assert_eq!(state.total_sol_collateral, 0);
}

#[test]
fn origination_requires_more_than_the_minimum_deposit() {
    let mut state = base_state();
    let sol_price = Price::from_scaled(20, 0).unwrap();
    let minimum = state.min_deposit;
    let result = create_mata_loan(&mut state, 7, minimum, &sol_price, None, 5_000);
    assert_eq!(result.unwrap_err(), LucraErrorCode::InvalidAmount);
}

#[test]
fn origination_respects_the_outstanding_cap() {
    let mut state = base_state();
    state.maximum_outstanding_mata = 1;
    let sol_price = Price::from_scaled(20, 0).unwrap();
    let result = create_mata_loan(&mut state, 7, 10 * LAMPORTS_PER_SOL, &sol_price, None, 5_000);
    assert_eq!(result.unwrap_err(), LucraErrorCode::InvalidAmount);
    assert_eq!(state.total_outstanding_mata, 0);
}

#[test]
fn origination_disabled_is_refused() {
    let mut state = base_state();
    state.loans_enabled = false;
    let sol_price = Price::from_scaled(20, 0).unwrap();
    let result = create_mata_loan(&mut state, 7, 10 * LAMPORTS_PER_SOL, &sol_price, None, 5_000);
    assert_eq!(result.unwrap_err(), LucraErrorCode::LoansNotEnabled);
}

#[test]
fn locked_stake_origination_locks_the_required_value() {
    let mut state = base_state();
    let mut staking = StakingAccount { owner: 7, total: 1_000_000_000_000, locked_total: 0 };
    let sol_price = Price::from_scaled(10, 0).unwrap();
    let lucra_price = Price::from_scaled(1, 0).unwrap();

    let outcome = create_mata_loan_with_locked_stake(
        &mut state,
        &mut staking,
        7,
        10 * LAMPORTS_PER_SOL,
        &sol_price,
        &lucra_price,
        None,
        5_000,
    )
    .unwrap();
    let loan = match outcome {
        OriginateOutcome::Opened(l) => l,
        OriginateOutcome::Refunded => panic!("origination should not refund"),
    };
    // Deposit worth 100 dollars, lcp 100%: 100 dollars of stake locked,
    // and 200 dollars of value at a 300% requirement.
    assert_eq!(loan.loan_type, LoanType::LucraBacked);
    assert_eq!(loan.staking_collateral_amount, 100);
    assert_eq!(loan.loan_amount, 66_666_666);
    assert_eq!(staking.locked_total, 100);
}

#[test]
fn locked_stake_origination_needs_unlocked_stake_value() {
    let mut state = base_state();
    // Far too little stake to cover the required value.
    let mut staking = StakingAccount { owner: 7, total: 10, locked_total: 0 };
    let sol_price = Price::from_scaled(10, 0).unwrap();
    let lucra_price = Price::from_scaled(1, 0).unwrap();

    let result = create_mata_loan_with_locked_stake(
        &mut state,
        &mut staking,
        7,
        10 * LAMPORTS_PER_SOL,
        &sol_price,
        &lucra_price,
        None,
        5_000,
    );
    assert_eq!(result.unwrap_err(), LucraErrorCode::InvalidAmount);
    assert_eq!(staking.locked_total, 0);
}

#[test]
fn top_up_increases_collateral_without_new_debt() {
    let mut state = base_state();
    let mut loan = MataLoan {
        owner: 7,
        loan_type: LoanType::Default,
        sol_collateral_amount: 5,
        loan_amount: 3,
        ..Default::default()
    };
    add_collateral(&mut state, &mut loan, 7, 10).unwrap();
    assert_eq!(loan.sol_collateral_amount, 15);
    assert_eq!(loan.loan_amount, 3);
    assert_eq!(state.total_sol_collateral, 10);
}

#[test]
fn top_up_checks_the_loan_type_and_owner() {
    let mut state = base_state();
    let mut loan = MataLoan {
        owner: 7,
        loan_type: LoanType::LucraBacked,
        sol_collateral_amount: 5,
        ..Default::default()
    };
    assert_eq!(
        add_collateral(&mut state, &mut loan, 7, 10).unwrap_err(),
        LucraErrorCode::InvalidLoanType
    );
    loan.loan_type = LoanType::Default;
    assert_eq!(
        add_collateral(&mut state, &mut loan, 8, 10).unwrap_err(),
        LucraErrorCode::InvalidAccountOwner
    );
}

#[test]
fn repaid_loans_refuse_every_mutation() {
    let mut state = base_state();
    let mut loan = MataLoan {
        owner: 7,
        loan_type: LoanType::Default,
        repaid: true,
        sol_collateral_amount: 5,
        ..Default::default()
    };
    assert_eq!(
        add_collateral(&mut state, &mut loan, 7, 10).unwrap_err(),
        LucraErrorCode::InvalidAccountInput
    );
    assert_eq!(
        close_out_mata_loan(&mut state, &mut loan, 7, 100, 1_000_000).unwrap_err(),
        LucraErrorCode::InvalidAccountInput
    );
}

#[test]
fn close_requires_the_full_borrowed_balance() {
    let mut state = base_state();
    let mut loan = MataLoan {
        owner: 7,
        loan_type: LoanType::Default,
        sol_collateral_amount: 5,
        loan_amount: 100,
        ..Default::default()
    };
    let result = close_out_mata_loan(&mut state, &mut loan, 7, 99, 1_000_000);
    assert_eq!(result.unwrap_err(), LucraErrorCode::InvalidAmount);
}

#[test]
fn close_returns_collateral_net_of_harvested_penalty() {
    let mut state = base_state();
    state.total_sol_collateral = 1_000;
    let mut loan = MataLoan {
        owner: 7,
        loan_type: LoanType::Default,
        sol_collateral_amount: 1_000,
        penalty_harvested: 250,
        loan_amount: 100,
        ..Default::default()
    };
    let returned = close_out_mata_loan(&mut state, &mut loan, 7, 100, 1_000_000).unwrap();
    assert_eq!(returned, 750);
    assert_eq!(state.total_sol_collateral, 250);
}
