//! Loan lifecycle decisions: originate, top up, close, harvest.
//!
//! These functions take the oracle-derived prices and collaborator results
//! (token balances, liquid-unstake proceeds, swap proceeds) as plain values
//! and decide exactly what must happen to the loan, the staking account and
//! the global record. Every check is re-validated against current field
//! values, and a failed check leaves every record untouched.

use vstd::prelude::*;

use crate::error::LucraErrorCode;
use crate::loan::{LoanType, MataLoan, StakingAccount};
use crate::oracle::{verify_orca_has_more_volume, verify_raydium_has_more_volume, Oracle,
    spec_find_volume};
use crate::penalty::{LAMPORTS_PER_MATA, LAMPORTS_PER_SOL};
use crate::price::Price;
use crate::system::{spec_peg_deviates, SystemState};

verus! {

/// Which exchange venue a harvest routes through.
#[derive(Clone, Copy, Debug, PartialEq, Eq, Structural)]
pub enum AmmTypes {
    /// No venue chosen; harvest is refused.
    Unset,
    Orca,
    Raydium,
}

/// What origination did with the presented loan account.
#[derive(Clone, Copy, Debug, PartialEq, Eq, Structural)]
pub enum OriginateOutcome {
    /// The peg was broken: the uninitialized account is refunded and
    /// closed instead of populated.
    Refunded,
    /// The loan was opened; mint `loan_amount` of the synthetic asset.
    Opened(MataLoan),
}

/// Numerator of the dollar value of `lamports` at `sol_price`.
pub open spec fn spec_dollar_num(sol_price: Price, lamports: u64) -> int {
    sol_price.num * lamports
}

/// Denominator of the dollar value of a lamport amount.
pub open spec fn spec_dollar_den(sol_price: Price) -> int {
    sol_price.den * (LAMPORTS_PER_SOL as int)
}

/// Whether that dollar value fits the machine words.
pub open spec fn spec_dollar_fits(sol_price: Price, lamports: u64) -> bool {
    spec_dollar_num(sol_price, lamports) <= u128::MAX && spec_dollar_den(sol_price) <= u128::MAX
}

/// The dollar value of `lamports` of native coin, exactly.
pub fn lamport_dollar_value(sol_price: &Price, lamports: u64) -> (r: Result<Price, LucraErrorCode>)
    requires
        sol_price.wf(),
    ensures
        r is Ok <==> spec_dollar_fits(*sol_price, lamports),
        r is Ok ==> r->Ok_0.wf() && r->Ok_0.num == spec_dollar_num(*sol_price, lamports)
            && r->Ok_0.den == spec_dollar_den(*sol_price),
        r is Err ==> r->Err_0 == LucraErrorCode::MathError,
{
    let num = match sol_price.num.checked_mul(lamports as u128) {
        Some(v) => v,
        None => {
            return Err(LucraErrorCode::MathError);
        },
    };
    let den = match sol_price.den.checked_mul(LAMPORTS_PER_SOL as u128) {
        Some(v) => v,
        None => {
            return Err(LucraErrorCode::MathError);
        },
    };
    proof {
        assert(den >= 1) by (nonlinear_arith)
            requires
                den == sol_price.den * LAMPORTS_PER_SOL,
                sol_price.den >= 1,
        ;
    }
    Ok(Price { num, den })
}

/// The borrowed amount granted for supplied collateral worth
/// `num / den` dollars: `floor(value / (requirement / 100) * 10^6)`.
pub open spec fn spec_loan_amount(num: int, den: int, collateral_requirement: u32) -> int {
    num * (100 * LAMPORTS_PER_MATA) / (den * collateral_requirement)
}

/// Whether that borrowed amount is computable in the machine words.
pub open spec fn spec_loan_amount_fits(num: int, den: int, collateral_requirement: u32) -> bool {
    &&& collateral_requirement >= 1
    &&& num * (100 * LAMPORTS_PER_MATA) <= u128::MAX
    &&& den * collateral_requirement <= u128::MAX
    &&& spec_loan_amount(num, den, collateral_requirement) <= u64::MAX
}

/// Borrowed-asset principal for supplied collateral: the collateral's
/// dollar value over the collateral requirement, floored into smallest
/// units. A zero requirement cannot be divided by and is a `MathError`.
pub fn get_loan_amount(supplied_collateral: &Price, collateral_requirement: u32) -> (r: Result<
    u64,
    LucraErrorCode,
>)
    requires
        supplied_collateral.wf(),
    ensures
        r is Ok <==> spec_loan_amount_fits(
            supplied_collateral.num as int,
            supplied_collateral.den as int,
            collateral_requirement,
        ),
        r is Ok ==> r->Ok_0 == spec_loan_amount(
            supplied_collateral.num as int,
            supplied_collateral.den as int,
            collateral_requirement,
        ),
        r is Err ==> r->Err_0 == LucraErrorCode::MathError,
{
    if collateral_requirement == 0 {
        return Err(LucraErrorCode::MathError);
    }
    let scale: u128 = 100 * (LAMPORTS_PER_MATA as u128);
    let num = match supplied_collateral.num.checked_mul(scale) {
        Some(v) => v,
        None => {
            return Err(LucraErrorCode::MathError);
        },
    };
    let den = match supplied_collateral.den.checked_mul(collateral_requirement as u128) {
        Some(v) => v,
        None => {
            return Err(LucraErrorCode::MathError);
        },
    };
    proof {
        assert(den >= 1) by (nonlinear_arith)
            requires
                den == supplied_collateral.den * collateral_requirement,
                supplied_collateral.den >= 1,
                collateral_requirement >= 1,
        ;
    }
    let q = num / den;
    if q > u64::MAX as u128 {
        Err(LucraErrorCode::MathError)
    } else {
        Ok(q as u64)
    }
}

/// Numerator of the stake value a locked-stake loan must pledge.
pub open spec fn spec_required_stake_num(lcp: u8, lamports: u64, sol_price: Price) -> int {
    lamports * lcp * sol_price.num
}

/// Denominator of the required stake value.
pub open spec fn spec_required_stake_den(sol_price: Price) -> int {
    100 * (LAMPORTS_PER_SOL as int) * sol_price.den
}

/// Whether the required stake value fits the machine words.
pub open spec fn spec_required_stake_fits(lcp: u8, lamports: u64, sol_price: Price) -> bool {
    &&& lamports * lcp <= u128::MAX
    &&& spec_required_stake_num(lcp, lamports, sol_price) <= u128::MAX
    &&& spec_required_stake_den(sol_price) <= u128::MAX
}

/// Stake value a locked-stake loan of `lamports` must pledge: the deposit
/// valued at `sol_price`, scaled by the loan-to-collateral percentage.
pub fn get_required_stake_value(lcp: u8, lamports: u64, sol_price: &Price) -> (r: Result<
    Price,
    LucraErrorCode,
>)
    requires
        sol_price.wf(),
    ensures
        r is Ok <==> spec_required_stake_fits(lcp, lamports, *sol_price),
        r is Ok ==> r->Ok_0.wf() && r->Ok_0.num == spec_required_stake_num(
            lcp,
            lamports,
            *sol_price,
        ) && r->Ok_0.den == spec_required_stake_den(*sol_price),
        r is Err ==> r->Err_0 == LucraErrorCode::MathError,
{
    proof {
        assert(lamports * lcp <= u128::MAX) by (nonlinear_arith)
            requires
                lamports <= u64::MAX,
                lcp <= u8::MAX,
        ;
    }
    let base: u128 = (lamports as u128) * (lcp as u128);
    let num = match base.checked_mul(sol_price.num) {
        Some(v) => v,
        None => {
            return Err(LucraErrorCode::MathError);
        },
    };
    let den = match (100 * (LAMPORTS_PER_SOL as u128)).checked_mul(sol_price.den) {
        Some(v) => v,
        None => {
            return Err(LucraErrorCode::MathError);
        },
    };
    proof {
        assert(den >= 1) by (nonlinear_arith)
            requires
                den == 100 * (LAMPORTS_PER_SOL as int) * sol_price.den,
                sol_price.den >= 1,
        ;
    }
    Ok(Price { num, den })
}

/// Stake value a staker can still pledge: the floor of the account's total
/// stake valued at the governance-token price, minus what is already
/// locked. A total worth less than the locked amount is a `MathError`.
pub open spec fn spec_value_left_num(account: StakingAccount, lucra_price: Price) -> int {
    account.total * lucra_price.num - account.locked_total * lucra_price.den
}

/// Whether the remaining pledgeable value is computable.
pub open spec fn spec_value_left_fits(account: StakingAccount, lucra_price: Price) -> bool {
    &&& account.total * lucra_price.num <= u128::MAX
    &&& account.locked_total * lucra_price.den <= u128::MAX
    &&& spec_value_left_num(account, lucra_price) >= 0
    &&& spec_value_left_num(account, lucra_price) / (lucra_price.den as int) <= u64::MAX
}

/// The dollar value a staker can still lock behind loans.
pub fn value_left_to_lock(account: &StakingAccount, lucra_price: &Price) -> (r: Result<
    u64,
    LucraErrorCode,
>)
    requires
        lucra_price.wf(),
    ensures
        r is Ok <==> spec_value_left_fits(*account, *lucra_price),
        r is Ok ==> r->Ok_0 == spec_value_left_num(*account, *lucra_price) / (lucra_price.den
            as int),
        r is Err ==> r->Err_0 == LucraErrorCode::MathError,
{
    let total_value = match (account.total as u128).checked_mul(lucra_price.num) {
        Some(v) => v,
        None => {
            return Err(LucraErrorCode::MathError);
        },
    };
    let locked_value = match (account.locked_total as u128).checked_mul(lucra_price.den) {
        Some(v) => v,
        None => {
            return Err(LucraErrorCode::MathError);
        },
    };
    if total_value < locked_value {
        return Err(LucraErrorCode::MathError);
    }
    let q = (total_value - locked_value) / lucra_price.den;
    if q > u64::MAX as u128 {
        Err(LucraErrorCode::MathError)
    } else {
        Ok(q as u64)
    }
}

/// The loan record an accepted origination writes.
pub open spec fn spec_opened_loan(
    state: SystemState,
    owner: u64,
    lamports: u64,
    loan_type: LoanType,
    staking_collateral_amount: u64,
    market_price: u64,
    loan_amount: u64,
    now: i64,
) -> MataLoan {
    MataLoan {
        owner,
        loan_type,
        repaid: false,
        collateral_rate: state.collateral_requirement,
        sol_collateral_amount: lamports,
        staking_collateral_amount,
        market_price,
        loan_amount,
        penalty_harvested: 0,
        penalty_to_harvest: 0,
        loan_creation_date: now,
        last_day_penalty_was_checked: now,
    }
}

/// Originate a loan backed by native-coin collateral only. The deposit's
/// dollar value over the collateral requirement fixes the borrowed amount;
/// while the peg is broken the presented account is refunded and closed
/// instead of populated. On success the caller mints the loan's amount of
/// the synthetic asset to the borrower and forwards the converted deposit
/// into the pooled vault.
pub fn create_mata_loan(
    system_state: &mut SystemState,
    owner: u64,
    lamports: u64,
    sol_price: &Price,
    mata_price: Option<&Price>,
    now: i64,
) -> (r: Result<OriginateOutcome, LucraErrorCode>)
    requires
        old(system_state).peg_check_enabled ==> (mata_price matches Some(p) ==> p.wf()),
        sol_price.wf(),
    ensures
        r is Err ==> *final(system_state) == *old(system_state),
        ({
            let s = *old(system_state);
            let gate_ok = s.loans_enabled;
            let oracle_ok = !s.peg_check_enabled || mata_price is Some;
            let peg_now = s.peg_check_enabled && spec_peg_deviates(
                *mata_price->Some_0,
                s.peg_tolerance,
            );
            let dollars_ok = spec_dollar_fits(*sol_price, lamports);
            let amount_ok = dollars_ok && spec_loan_amount_fits(
                spec_dollar_num(*sol_price, lamports),
                spec_dollar_den(*sol_price),
                s.collateral_requirement,
            );
            let loan_amount = spec_loan_amount(
                spec_dollar_num(*sol_price, lamports),
                spec_dollar_den(*sol_price),
                s.collateral_requirement,
            );
            let deposit_ok = lamports > s.min_deposit;
            let price_ok = sol_price.spec_floor() <= u64::MAX;
            let cap_ok = s.total_outstanding_mata + loan_amount <= s.maximum_outstanding_mata;
            &&& (!gate_ok ==> r == Err::<OriginateOutcome, _>(LucraErrorCode::LoansNotEnabled))
            &&& (gate_ok && !oracle_ok ==> r == Err::<OriginateOutcome, _>(
                LucraErrorCode::InvalidAccountInput,
            ))
            &&& (gate_ok && oracle_ok && !amount_ok ==> r == Err::<OriginateOutcome, _>(
                LucraErrorCode::MathError,
            ))
            &&& (gate_ok && oracle_ok && amount_ok && peg_now ==> (r matches Ok(
                OriginateOutcome::Refunded,
            )) && *final(system_state) == (SystemState { peg_broken: true, ..s }))
            &&& (gate_ok && oracle_ok && amount_ok && !peg_now && !deposit_ok ==> r == Err::<
                OriginateOutcome,
                _,
            >(LucraErrorCode::InvalidAmount))
            &&& (gate_ok && oracle_ok && amount_ok && !peg_now && deposit_ok && !price_ok ==> r
                == Err::<OriginateOutcome, _>(LucraErrorCode::MathError))
            &&& (gate_ok && oracle_ok && amount_ok && !peg_now && deposit_ok && price_ok && !cap_ok
                ==> r == Err::<OriginateOutcome, _>(LucraErrorCode::InvalidAmount))
            &&& (gate_ok && oracle_ok && amount_ok && !peg_now && deposit_ok && price_ok && cap_ok
                ==> ({
                let loan = spec_opened_loan(
                    s,
                    owner,
                    lamports,
                    LoanType::Default,
                    0,
                    sol_price.spec_floor() as u64,
                    loan_amount as u64,
                    now,
                );
                &&& (r matches Ok(OriginateOutcome::Opened(l)) && l == loan && l.wf())
                &&& final(system_state).total_outstanding_mata == s.total_outstanding_mata
                    + loan_amount
                &&& final(system_state).total_sol_collateral == (if s.total_sol_collateral
                    + lamports <= u64::MAX {
                    s.total_sol_collateral + lamports
                } else {
                    u64::MAX as int
                })
                &&& final(system_state).peg_broken == (if s.peg_check_enabled {
                    spec_peg_deviates(*mata_price->Some_0, s.peg_tolerance)
                } else {
                    s.peg_broken
                })
                &&& *final(system_state) == (SystemState {
                    total_outstanding_mata: final(system_state).total_outstanding_mata,
                    total_sol_collateral: final(system_state).total_sol_collateral,
                    peg_broken: final(system_state).peg_broken,
                    ..s
                })
            }))
        }),
{
    if !system_state.loans_enabled {
        return Err(LucraErrorCode::LoansNotEnabled);
    }
    let peg_breaks: bool = if system_state.peg_check_enabled {
        match mata_price {
            None => {
                return Err(LucraErrorCode::InvalidAccountInput);
            },
            Some(p) => {
                let mut probe = *system_state;
                probe.update_peg(p);
                probe.peg_broken
            },
        }
    } else {
        false
    };
    let dollars = match lamport_dollar_value(sol_price, lamports) {
        Ok(v) => v,
        Err(code) => {
            return Err(code);
        },
    };
    let loan_amount = match get_loan_amount(&dollars, system_state.collateral_requirement) {
        Ok(v) => v,
        Err(code) => {
            return Err(code);
        },
    };
    if peg_breaks {
        system_state.update_peg(mata_price.unwrap());
        return Ok(OriginateOutcome::Refunded);
    }
    if !(lamports > system_state.min_deposit) {
        return Err(LucraErrorCode::InvalidAmount);
    }
    let market_price = match sol_price.floor_u64() {
        Ok(v) => v,
        Err(code) => {
            return Err(code);
        },
    };
    match system_state.add_outstanding_mata(loan_amount) {
        Ok(()) => {},
        Err(code) => {
            return Err(code);
        },
    }
    if system_state.peg_check_enabled {
        system_state.update_peg(mata_price.unwrap());
    }
    system_state.add_collateral(lamports);
    let loan = MataLoan {
        owner,
        loan_type: LoanType::Default,
        repaid: false,
        collateral_rate: system_state.collateral_requirement,
        sol_collateral_amount: lamports,
        staking_collateral_amount: 0,
        market_price,
        loan_amount,
        penalty_harvested: 0,
        penalty_to_harvest: 0,
        loan_creation_date: now,
        last_day_penalty_was_checked: now,
    };
    Ok(OriginateOutcome::Opened(loan))
}

/// Originate a loan backed by native coin plus locked governance stake.
/// The required stake value comes from the configured loan-to-collateral
/// percentage; origination is refused when the staker's unlocked stake
/// value cannot cover it. On success that value is locked on the staking
/// account. A refund for a broken peg locks nothing.
pub fn create_mata_loan_with_locked_stake(
    system_state: &mut SystemState,
    staking_account: &mut StakingAccount,
    owner: u64,
    lamports: u64,
    sol_price: &Price,
    lucra_price: &Price,
    mata_price: Option<&Price>,
    now: i64,
) -> (r: Result<OriginateOutcome, LucraErrorCode>)
    requires
        old(system_state).peg_check_enabled ==> (mata_price matches Some(p) ==> p.wf()),
        sol_price.wf(),
        lucra_price.wf(),
    ensures
        r is Err ==> *final(system_state) == *old(system_state) && *final(staking_account) == *old(
            staking_account,
        ),
        ({
            let s = *old(system_state);
            let sa = *old(staking_account);
            let gates_ok = s.staking_enabled && s.loans_enabled;
            let owner_ok = sa.owner == owner;
            let oracle_ok = !s.peg_check_enabled || mata_price is Some;
            let peg_now = s.peg_check_enabled && spec_peg_deviates(
                *mata_price->Some_0,
                s.peg_tolerance,
            );
            let tnum = spec_dollar_num(*sol_price, lamports) * spec_required_stake_den(*sol_price)
                + spec_required_stake_num(s.lcp, lamports, *sol_price) * spec_dollar_den(
                *sol_price,
            );
            let tden = spec_dollar_den(*sol_price) * spec_required_stake_den(*sol_price);
            let value_ok = spec_dollar_fits(*sol_price, lamports) && spec_required_stake_fits(
                s.lcp,
                lamports,
                *sol_price,
            ) && spec_dollar_num(*sol_price, lamports) * spec_required_stake_den(*sol_price)
                <= u128::MAX && spec_required_stake_num(s.lcp, lamports, *sol_price)
                * spec_dollar_den(*sol_price) <= u128::MAX && tnum <= u128::MAX && tden
                <= u128::MAX && spec_loan_amount_fits(tnum, tden, s.collateral_requirement)
                && spec_value_left_fits(sa, *lucra_price) && spec_required_stake_num(
                s.lcp,
                lamports,
                *sol_price,
            ) / spec_required_stake_den(*sol_price) <= u64::MAX;
            let loan_amount = spec_loan_amount(tnum, tden, s.collateral_requirement);
            let required_floor = spec_required_stake_num(s.lcp, lamports, *sol_price)
                / spec_required_stake_den(*sol_price);
            let left = spec_value_left_num(sa, *lucra_price) / (lucra_price.den as int);
            let stake_ok = required_floor <= left;
            let deposit_ok = lamports > s.min_deposit;
            let price_ok = sol_price.spec_floor() <= u64::MAX;
            let cap_ok = s.total_outstanding_mata + loan_amount <= s.maximum_outstanding_mata;
            &&& (!s.staking_enabled ==> r == Err::<OriginateOutcome, _>(
                LucraErrorCode::StakingNotEnabled,
            ))
            &&& (s.staking_enabled && !s.loans_enabled ==> r == Err::<OriginateOutcome, _>(
                LucraErrorCode::LoansNotEnabled,
            ))
            &&& (gates_ok && !owner_ok ==> r == Err::<OriginateOutcome, _>(
                LucraErrorCode::InvalidAccountInput,
            ))
            &&& (gates_ok && owner_ok && !oracle_ok ==> r == Err::<OriginateOutcome, _>(
                LucraErrorCode::InvalidAccountInput,
            ))
            &&& (gates_ok && owner_ok && oracle_ok && !value_ok ==> r == Err::<OriginateOutcome, _>(
                LucraErrorCode::MathError,
            ))
            &&& (gates_ok && owner_ok && oracle_ok && value_ok && !stake_ok ==> r == Err::<
                OriginateOutcome,
                _,
            >(LucraErrorCode::InvalidAmount))
            &&& (gates_ok && owner_ok && oracle_ok && value_ok && stake_ok && peg_now ==> (r
                matches Ok(OriginateOutcome::Refunded)) && *final(system_state) == (SystemState {
                peg_broken: true,
                ..s
            }) && *final(staking_account) == sa)
            &&& (gates_ok && owner_ok && oracle_ok && value_ok && stake_ok && !peg_now
                && !deposit_ok ==> r == Err::<OriginateOutcome, _>(LucraErrorCode::InvalidAmount))
            &&& (gates_ok && owner_ok && oracle_ok && value_ok && stake_ok && !peg_now
                && deposit_ok && !price_ok ==> r == Err::<OriginateOutcome, _>(
                LucraErrorCode::MathError,
            ))
            &&& (gates_ok && owner_ok && oracle_ok && value_ok && stake_ok && !peg_now
                && deposit_ok && price_ok && !cap_ok ==> r == Err::<OriginateOutcome, _>(
                LucraErrorCode::InvalidAmount,
            ))
            &&& (gates_ok && owner_ok && oracle_ok && value_ok && stake_ok && !peg_now
                && deposit_ok && price_ok && cap_ok ==> ({
                let loan = spec_opened_loan(
                    s,
                    owner,
                    lamports,
                    LoanType::LucraBacked,
                    required_floor as u64,
                    sol_price.spec_floor() as u64,
                    loan_amount as u64,
                    now,
                );
                &&& (r matches Ok(OriginateOutcome::Opened(l)) && l == loan && l.wf())
                &&& final(system_state).total_outstanding_mata == s.total_outstanding_mata
                    + loan_amount
                &&& final(system_state).total_sol_collateral == (if s.total_sol_collateral
                    + lamports <= u64::MAX {
                    s.total_sol_collateral + lamports
                } else {
                    u64::MAX as int
                })
                &&& final(system_state).peg_broken == (if s.peg_check_enabled {
                    spec_peg_deviates(*mata_price->Some_0, s.peg_tolerance)
                } else {
                    s.peg_broken
                })
                &&& *final(system_state) == (SystemState {
                    total_outstanding_mata: final(system_state).total_outstanding_mata,
                    total_sol_collateral: final(system_state).total_sol_collateral,
                    peg_broken: final(system_state).peg_broken,
                    ..s
                })
                &&& *final(staking_account) == (StakingAccount {
                    locked_total: (if sa.locked_total + required_floor <= u64::MAX {
                        sa.locked_total + required_floor
                    } else {
                        u64::MAX as int
                    }) as u64,
                    ..sa
                })
            }))
        }),
{
    if !system_state.staking_enabled {
        return Err(LucraErrorCode::StakingNotEnabled);
    }
    if !system_state.loans_enabled {
        return Err(LucraErrorCode::LoansNotEnabled);
    }
    if staking_account.owner != owner {
        return Err(LucraErrorCode::InvalidAccountInput);
    }
    let peg_breaks: bool = if system_state.peg_check_enabled {
        match mata_price {
            None => {
                return Err(LucraErrorCode::InvalidAccountInput);
            },
            Some(p) => {
                let mut probe = *system_state;
                probe.update_peg(p);
                probe.peg_broken
            },
        }
    } else {
        false
    };
    let dollars = match lamport_dollar_value(sol_price, lamports) {
        Ok(v) => v,
        Err(code) => {
            return Err(code);
        },
    };
    let required_stake = match get_required_stake_value(system_state.lcp, lamports, sol_price) {
        Ok(v) => v,
        Err(code) => {
            return Err(code);
        },
    };
    let total_value = match dollars.add(&required_stake) {
        Ok(v) => v,
        Err(code) => {
            return Err(code);
        },
    };
    let loan_amount = match get_loan_amount(&total_value, system_state.collateral_requirement) {
        Ok(v) => v,
        Err(code) => {
            return Err(code);
        },
    };
    let left = match value_left_to_lock(staking_account, lucra_price) {
        Ok(v) => v,
        Err(code) => {
            return Err(code);
        },
    };
    let required_floor = match required_stake.floor_u64() {
        Ok(v) => v,
        Err(code) => {
            return Err(code);
        },
    };
    if !(required_floor <= left) {
        return Err(LucraErrorCode::InvalidAmount);
    }
    if peg_breaks {
        system_state.update_peg(mata_price.unwrap());
        return Ok(OriginateOutcome::Refunded);
    }
    if !(lamports > system_state.min_deposit) {
        return Err(LucraErrorCode::InvalidAmount);
    }
    let market_price = match sol_price.floor_u64() {
        Ok(v) => v,
        Err(code) => {
            return Err(code);
        },
    };
    match system_state.add_outstanding_mata(loan_amount) {
        Ok(()) => {},
        Err(code) => {
            return Err(code);
        },
    }
    if system_state.peg_check_enabled {
        system_state.update_peg(mata_price.unwrap());
    }
    system_state.add_collateral(lamports);
    staking_account.add_locked_total(required_floor);
    let loan = MataLoan {
        owner,
        loan_type: LoanType::LucraBacked,
        repaid: false,
        collateral_rate: system_state.collateral_requirement,
        sol_collateral_amount: lamports,
        staking_collateral_amount: required_floor,
        market_price,
        loan_amount,
        penalty_harvested: 0,
        penalty_to_harvest: 0,
        loan_creation_date: now,
        last_day_penalty_was_checked: now,
    };
    Ok(OriginateOutcome::Opened(loan))
}

/// Post further collateral to an open loan owned by `owner`. The borrowed
/// amount does not change. The caller forwards the converted deposit into
/// the pooled vault on success.
pub fn add_additional_collateral(
    system_state: &mut SystemState,
    loan: &mut MataLoan,
    owner: u64,
    lamports: u64,
    staking_collateral_amount: u64,
) -> (r: Result<(), LucraErrorCode>)
    requires
        old(loan).wf(),
    ensures
        final(loan).wf(),
        r is Err ==> *final(loan) == *old(loan) && *final(system_state) == *old(system_state),
        old(loan).repaid ==> r == Err::<(), _>(LucraErrorCode::InvalidAccountInput),
        !old(loan).repaid && old(loan).owner != owner ==> r == Err::<(), _>(
            LucraErrorCode::InvalidAccountOwner,
        ),
        ({
            let checks_ok = !old(loan).repaid && old(loan).owner == owner;
            let fits = old(loan).sol_collateral_amount + lamports <= u64::MAX && old(
                loan,
            ).staking_collateral_amount + staking_collateral_amount <= u64::MAX;
            &&& (checks_ok && !fits ==> r == Err::<(), _>(LucraErrorCode::MathError))
            &&& (r is Ok <==> checks_ok && fits)
            &&& (r is Ok ==> *final(loan) == (MataLoan {
                sol_collateral_amount: (old(loan).sol_collateral_amount + lamports) as u64,
                staking_collateral_amount: (old(loan).staking_collateral_amount
                    + staking_collateral_amount) as u64,
                ..*old(loan)
            }) && *final(system_state) == (SystemState {
                total_sol_collateral: (if old(system_state).total_sol_collateral + lamports
                    <= u64::MAX {
                    old(system_state).total_sol_collateral + lamports
                } else {
                    u64::MAX as int
                }) as u64,
                ..*old(system_state)
            }))
        }),
{
    if loan.repaid {
        return Err(LucraErrorCode::InvalidAccountInput);
    }
    if loan.owner != owner {
        return Err(LucraErrorCode::InvalidAccountOwner);
    }
    if (loan.sol_collateral_amount as u128) + (lamports as u128) > u64::MAX as u128 {
        return Err(LucraErrorCode::MathError);
    }
    if (loan.staking_collateral_amount as u128) + (staking_collateral_amount as u128)
        > u64::MAX as u128 {
        return Err(LucraErrorCode::MathError);
    }
    loan.sol_collateral_amount = loan.sol_collateral_amount + lamports;
    loan.staking_collateral_amount = loan.staking_collateral_amount + staking_collateral_amount;
    system_state.add_collateral(lamports);
    Ok(())
}

/// Top up a plain loan with more native-coin collateral.
pub fn add_collateral(
    system_state: &mut SystemState,
    loan: &mut MataLoan,
    owner: u64,
    lamports: u64,
) -> (r: Result<(), LucraErrorCode>)
    requires
        old(loan).wf(),
    ensures
        final(loan).wf(),
        r is Err ==> *final(loan) == *old(loan) && *final(system_state) == *old(system_state),
        !old(system_state).loans_enabled ==> r == Err::<(), _>(LucraErrorCode::LoansNotEnabled),
        old(system_state).loans_enabled && old(loan).loan_type != LoanType::Default ==> r == Err::<
            (),
            _,
        >(LucraErrorCode::InvalidLoanType),
        ({
            let gate_ok = old(system_state).loans_enabled && old(loan).loan_type
                == LoanType::Default;
            let checks_ok = !old(loan).repaid && old(loan).owner == owner;
            let fits = old(loan).sol_collateral_amount + lamports <= u64::MAX;
            &&& (r is Ok <==> gate_ok && checks_ok && fits)
            &&& (r is Ok ==> *final(loan) == (MataLoan {
                sol_collateral_amount: (old(loan).sol_collateral_amount + lamports) as u64,
                ..*old(loan)
            }) && *final(system_state) == (SystemState {
                total_sol_collateral: (if old(system_state).total_sol_collateral + lamports
                    <= u64::MAX {
                    old(system_state).total_sol_collateral + lamports
                } else {
                    u64::MAX as int
                }) as u64,
                ..*old(system_state)
            }))
        }),
{
    if !system_state.loans_enabled {
        return Err(LucraErrorCode::LoansNotEnabled);
    }
    if !(loan.loan_type == LoanType::Default) {
        return Err(LucraErrorCode::InvalidLoanType);
    }
    add_additional_collateral(system_state, loan, owner, lamports, 0)
}

/// Top up a locked-stake loan: the deposit's dollar value must be matched
/// by further unlocked stake value, which this locks.
pub fn add_collateral_with_locked_stake(
    system_state: &mut SystemState,
    loan: &mut MataLoan,
    staking_account: &mut StakingAccount,
    owner: u64,
    lamports: u64,
    sol_price: &Price,
    lucra_price: &Price,
) -> (r: Result<(), LucraErrorCode>)
    requires
        old(loan).wf(),
        sol_price.wf(),
        lucra_price.wf(),
    ensures
        final(loan).wf(),
        r is Err ==> *final(loan) == *old(loan) && *final(system_state) == *old(system_state)
            && *final(staking_account) == *old(staking_account),
        ({
            let s = *old(system_state);
            let sa = *old(staking_account);
            let required = spec_dollar_num(*sol_price, lamports) / spec_dollar_den(*sol_price);
            let left = spec_value_left_num(sa, *lucra_price) / (lucra_price.den as int);
            let value_ok = spec_dollar_fits(*sol_price, lamports) && required <= u64::MAX
                && spec_value_left_fits(sa, *lucra_price);
            let stake_ok = required <= left;
            let checks_ok = !old(loan).repaid && old(loan).owner == owner;
            let fits = old(loan).sol_collateral_amount + lamports <= u64::MAX && old(
                loan,
            ).staking_collateral_amount + required <= u64::MAX;
            &&& (!s.loans_enabled ==> r == Err::<(), _>(LucraErrorCode::LoansNotEnabled))
            &&& (s.loans_enabled && !s.staking_enabled ==> r == Err::<(), _>(
                LucraErrorCode::StakingNotEnabled,
            ))
            &&& (s.loans_enabled && s.staking_enabled && sa.owner != owner ==> r == Err::<(), _>(
                LucraErrorCode::InvalidAccountInput,
            ))
            &&& (s.loans_enabled && s.staking_enabled && sa.owner == owner && !value_ok ==> r
                == Err::<(), _>(LucraErrorCode::MathError))
            &&& (s.loans_enabled && s.staking_enabled && sa.owner == owner && value_ok && !stake_ok
                ==> r == Err::<(), _>(LucraErrorCode::InvalidAmount))
            &&& (s.loans_enabled && s.staking_enabled && sa.owner == owner && value_ok && stake_ok
                && old(loan).loan_type != LoanType::LucraBacked ==> r == Err::<(), _>(
                LucraErrorCode::InvalidLoanType,
            ))
            &&& (r is Ok <==> s.loans_enabled && s.staking_enabled && sa.owner == owner && value_ok
                && stake_ok && old(loan).loan_type == LoanType::LucraBacked && checks_ok && fits)
            &&& (r is Ok ==> *final(loan) == (MataLoan {
                sol_collateral_amount: (old(loan).sol_collateral_amount + lamports) as u64,
                staking_collateral_amount: (old(loan).staking_collateral_amount + required) as u64,
                ..*old(loan)
            }) && *final(system_state) == (SystemState {
                total_sol_collateral: (if s.total_sol_collateral + lamports <= u64::MAX {
                    s.total_sol_collateral + lamports
                } else {
                    u64::MAX as int
                }) as u64,
                ..s
            }) && *final(staking_account) == (StakingAccount {
                locked_total: (if sa.locked_total + required <= u64::MAX {
                    sa.locked_total + required
                } else {
                    u64::MAX as int
                }) as u64,
                ..sa
            }))
        }),
{
    if !system_state.loans_enabled {
        return Err(LucraErrorCode::LoansNotEnabled);
    }
    if !system_state.staking_enabled {
        return Err(LucraErrorCode::StakingNotEnabled);
    }
    if staking_account.owner != owner {
        return Err(LucraErrorCode::InvalidAccountInput);
    }
    let dollars = match lamport_dollar_value(sol_price, lamports) {
        Ok(v) => v,
        Err(code) => {
            return Err(code);
        },
    };
    let staking_value_required = match dollars.floor_u64() {
        Ok(v) => v,
        Err(code) => {
            return Err(code);
        },
    };
    let left = match value_left_to_lock(staking_account, lucra_price) {
        Ok(v) => v,
        Err(code) => {
            return Err(code);
        },
    };
    if !(staking_value_required <= left) {
        return Err(LucraErrorCode::InvalidAmount);
    }
    if !(loan.loan_type == LoanType::LucraBacked) {
        return Err(LucraErrorCode::InvalidLoanType);
    }
    let outcome = add_additional_collateral(
        system_state,
        loan,
        owner,
        lamports,
        staking_value_required,
    );
    match outcome {
        Ok(()) => {
            staking_account.add_locked_total(staking_value_required);
            Ok(())
        },
        Err(code) => Err(code),
    }
}

/// Close an open loan: after the time-lock, a borrower holding the full
/// borrowed amount burns it and receives the collateral not consumed by
/// harvested penalty. The caller performs the burn and the vault transfer
/// of the returned amount on success.
pub fn close_loan(
    system_state: &mut SystemState,
    loan: &mut MataLoan,
    owner: u64,
    user_mata_balance: u64,
    now: i64,
) -> (r: Result<u64, LucraErrorCode>)
    requires
        old(loan).wf(),
    ensures
        final(loan).wf(),
        r is Err ==> *final(loan) == *old(loan) && *final(system_state) == *old(system_state),
        ({
            let l = *old(loan);
            let s = *old(system_state);
            let unlocked = l.loan_creation_date + s.epoch < now;
            let returned = l.sol_collateral_amount - l.penalty_harvested;
            &&& (!unlocked ==> r == Err::<u64, _>(LucraErrorCode::Timelock))
            &&& (unlocked && l.repaid ==> r == Err::<u64, _>(LucraErrorCode::InvalidAccountInput))
            &&& (unlocked && !l.repaid && l.owner != owner ==> r == Err::<u64, _>(
                LucraErrorCode::InvalidAccountInput,
            ))
            &&& (unlocked && !l.repaid && l.owner == owner && user_mata_balance < l.loan_amount
                ==> r == Err::<u64, _>(LucraErrorCode::InvalidAmount))
            &&& (r is Ok <==> unlocked && !l.repaid && l.owner == owner && user_mata_balance
                >= l.loan_amount)
            &&& (r is Ok ==> r->Ok_0 == returned && *final(loan) == (MataLoan {
                repaid: true,
                ..l
            }) && *final(system_state) == (SystemState {
                total_sol_collateral: (if s.total_sol_collateral >= returned {
                    s.total_sol_collateral - returned
                } else {
                    0
                }) as u64,
                ..s
            }))
        }),
{
    if !((loan.loan_creation_date as i128) + (system_state.epoch as i128) < now as i128) {
        return Err(LucraErrorCode::Timelock);
    }
    if loan.repaid {
        return Err(LucraErrorCode::InvalidAccountInput);
    }
    if loan.owner != owner {
        return Err(LucraErrorCode::InvalidAccountInput);
    }
    if user_mata_balance < loan.loan_amount {
        return Err(LucraErrorCode::InvalidAmount);
    }
    let sol_to_return = loan.calc_remaining_sol();
    loan.mark_repaid();
    system_state.remove_collateral(sol_to_return);
    Ok(sol_to_return)
}

/// Close a plain loan.
pub fn close_out_mata_loan(
    system_state: &mut SystemState,
    loan: &mut MataLoan,
    owner: u64,
    user_mata_balance: u64,
    now: i64,
) -> (r: Result<u64, LucraErrorCode>)
    requires
        old(loan).wf(),
    ensures
        final(loan).wf(),
        r is Err ==> *final(loan) == *old(loan) && *final(system_state) == *old(system_state),
        !old(system_state).loans_enabled ==> r == Err::<u64, _>(LucraErrorCode::LoansNotEnabled),
        old(system_state).loans_enabled && old(loan).loan_type != LoanType::Default ==> r == Err::<
            u64,
            _,
        >(LucraErrorCode::InvalidLoanType),
        ({
            let l = *old(loan);
            let s = *old(system_state);
            let gate_ok = s.loans_enabled && l.loan_type == LoanType::Default;
            let unlocked = l.loan_creation_date + s.epoch < now;
            let returned = l.sol_collateral_amount - l.penalty_harvested;
            &&& (gate_ok && !unlocked ==> r == Err::<u64, _>(LucraErrorCode::Timelock))
            &&& (r is Ok <==> gate_ok && unlocked && !l.repaid && l.owner == owner
                && user_mata_balance >= l.loan_amount)
            &&& (r is Ok ==> r->Ok_0 == returned && *final(loan) == (MataLoan {
                repaid: true,
                ..l
            }) && *final(system_state) == (SystemState {
                total_sol_collateral: (if s.total_sol_collateral >= returned {
                    s.total_sol_collateral - returned
                } else {
                    0
                }) as u64,
                ..s
            }))
        }),
{
    if !system_state.loans_enabled {
        return Err(LucraErrorCode::LoansNotEnabled);
    }
    if !(loan.loan_type == LoanType::Default) {
        return Err(LucraErrorCode::InvalidLoanType);
    }
    close_loan(system_state, loan, owner, user_mata_balance, now)
}

/// Close a locked-stake loan; on success the stake value the loan had
/// pledged is released on the staking account.
pub fn close_out_mata_loan_with_locked_stake(
    system_state: &mut SystemState,
    loan: &mut MataLoan,
    staking_account: &mut StakingAccount,
    owner: u64,
    user_mata_balance: u64,
    now: i64,
) -> (r: Result<u64, LucraErrorCode>)
    requires
        old(loan).wf(),
    ensures
        final(loan).wf(),
        r is Err ==> *final(loan) == *old(loan) && *final(system_state) == *old(system_state)
            && *final(staking_account) == *old(staking_account),
        ({
            let l = *old(loan);
            let s = *old(system_state);
            let sa = *old(staking_account);
            let gate_ok = s.staking_enabled && s.loans_enabled && l.loan_type
                == LoanType::LucraBacked && sa.owner == owner;
            let unlocked = l.loan_creation_date + s.epoch < now;
            let returned = l.sol_collateral_amount - l.penalty_harvested;
            &&& (!s.staking_enabled ==> r == Err::<u64, _>(LucraErrorCode::StakingNotEnabled))
            &&& (s.staking_enabled && !s.loans_enabled ==> r == Err::<u64, _>(
                LucraErrorCode::LoansNotEnabled,
            ))
            &&& (s.staking_enabled && s.loans_enabled && l.loan_type != LoanType::LucraBacked ==> r
                == Err::<u64, _>(LucraErrorCode::InvalidLoanType))
            &&& (s.staking_enabled && s.loans_enabled && l.loan_type == LoanType::LucraBacked
                && sa.owner != owner ==> r == Err::<u64, _>(LucraErrorCode::InvalidAccountInput))
            &&& (r is Ok <==> gate_ok && unlocked && !l.repaid && l.owner == owner
                && user_mata_balance >= l.loan_amount)
            &&& (r is Ok ==> r->Ok_0 == returned && *final(loan) == (MataLoan {
                repaid: true,
                ..l
            }) && *final(system_state) == (SystemState {
                total_sol_collateral: (if s.total_sol_collateral >= returned {
                    s.total_sol_collateral - returned
                } else {
                    0
                }) as u64,
                ..s
            }) && *final(staking_account) == (StakingAccount {
                locked_total: (if sa.locked_total >= l.staking_collateral_amount {
                    sa.locked_total - l.staking_collateral_amount
                } else {
                    0
                }) as u64,
                ..sa
            }))
        }),
{
    if !system_state.staking_enabled {
        return Err(LucraErrorCode::StakingNotEnabled);
    }
    if !system_state.loans_enabled {
        return Err(LucraErrorCode::LoansNotEnabled);
    }
    if !(loan.loan_type == LoanType::LucraBacked) {
        return Err(LucraErrorCode::InvalidLoanType);
    }
    if staking_account.owner != owner {
        return Err(LucraErrorCode::InvalidAccountInput);
    }
    let released = loan.staking_collateral_amount;
    let outcome = close_loan(system_state, loan, owner, user_mata_balance, now);
    match outcome {
        Ok(returned) => {
            staking_account.remove_locked_total(released);
            Ok(returned)
        },
        Err(code) => Err(code),
    }
}

/// Decide whether a harvest may run and how much penalty it liquidates.
/// The chosen venue must carry at least the other venue's trailing volume
/// for the pair — liquidation never routes through the thinner pool — and
/// the pending penalty must reach the configured minimum.
pub fn harvest_penalty_begin(
    system_state: &SystemState,
    loan: &MataLoan,
    oracle: &Oracle,
    amm_type: AmmTypes,
    raydium_market: u64,
    orca_market: u64,
) -> (r: Result<u64, LucraErrorCode>)
    ensures
        ({
            let rv = spec_find_volume(oracle.sources@, raydium_market);
            let ov = spec_find_volume(oracle.sources@, orca_market);
            let volume_ok = rv is Some && ov is Some && (match amm_type {
                AmmTypes::Unset => false,
                AmmTypes::Orca => ov->0 >= rv->0,
                AmmTypes::Raydium => rv->0 >= ov->0,
            });
            &&& (amm_type == AmmTypes::Unset ==> r == Err::<u64, _>(LucraErrorCode::NotImplemented))
            &&& (amm_type != AmmTypes::Unset && (rv is None || ov is None) ==> r == Err::<u64, _>(
                LucraErrorCode::InvalidAccountInput,
            ))
            &&& (amm_type != AmmTypes::Unset && rv is Some && ov is Some && !volume_ok ==> r
                == Err::<u64, _>(LucraErrorCode::InvalidAmount))
            &&& (r is Ok <==> amm_type != AmmTypes::Unset && volume_ok && !loan.repaid
                && loan.penalty_to_harvest >= system_state.minimum_harvest_amount)
            &&& (amm_type != AmmTypes::Unset && volume_ok && loan.repaid ==> r == Err::<u64, _>(
                LucraErrorCode::InvalidAccountInput,
            ))
            &&& (amm_type != AmmTypes::Unset && volume_ok && !loan.repaid
                && loan.penalty_to_harvest < system_state.minimum_harvest_amount ==> r == Err::<
                u64,
                _,
            >(LucraErrorCode::NoPenaltyToHarvest))
            &&& (r is Ok ==> r->Ok_0 == loan.penalty_to_harvest)
        }),
{
    match amm_type {
        AmmTypes::Unset => {
            return Err(LucraErrorCode::NotImplemented);
        },
        AmmTypes::Orca => {
            match verify_orca_has_more_volume(oracle, raydium_market, orca_market) {
                Ok(()) => {},
                Err(code) => {
                    return Err(code);
                },
            }
        },
        AmmTypes::Raydium => {
            match verify_raydium_has_more_volume(oracle, raydium_market, orca_market) {
                Ok(()) => {},
                Err(code) => {
                    return Err(code);
                },
            }
        },
    }
    if loan.repaid {
        return Err(LucraErrorCode::InvalidAccountInput);
    }
    if loan.penalty_to_harvest >= system_state.minimum_harvest_amount {
        Ok(loan.penalty_to_harvest)
    } else {
        Err(LucraErrorCode::NoPenaltyToHarvest)
    }
}

/// Net the fixed execution-incentive fee out of the unstake proceeds; the
/// remainder is wrapped and swapped for the synthetic asset.
pub fn net_of_reward_fee(sol_received: u64, reward_fee: u32) -> (r: Result<u64, LucraErrorCode>)
    ensures
        r is Ok <==> sol_received >= reward_fee,
        r is Ok ==> r->Ok_0 == sol_received - reward_fee,
        r is Err ==> r->Err_0 == LucraErrorCode::MathError,
{
    match sol_received.checked_sub(reward_fee as u64) {
        Some(v) => Ok(v),
        None => Err(LucraErrorCode::MathError),
    }
}

/// Settle a completed harvest: the synthetic asset received from the swap
/// was burnt, so the outstanding-debt counter falls by it, the posted
/// collateral falls by the liquidated penalty, and the loan's pending
/// penalty moves into its harvested accumulator.
pub fn harvest_penalty_settle(
    system_state: &mut SystemState,
    loan: &mut MataLoan,
    mata_burned: u64,
)
    requires
        old(loan).wf(),
    ensures
        final(loan).wf(),
        *final(loan) == (MataLoan {
            penalty_harvested: (old(loan).penalty_harvested + old(loan).penalty_to_harvest) as u64,
            penalty_to_harvest: 0,
            ..*old(loan)
        }),
        *final(system_state) == (SystemState {
            total_outstanding_mata: (if old(system_state).total_outstanding_mata >= mata_burned {
                old(system_state).total_outstanding_mata - mata_burned
            } else {
                0
            }) as u64,
            total_sol_collateral: (if old(system_state).total_sol_collateral >= old(
                loan,
            ).penalty_to_harvest {
                old(system_state).total_sol_collateral - old(loan).penalty_to_harvest
            } else {
                0
            }) as u64,
            ..*old(system_state)
        }),
{
    system_state.remove_outstanding_mata(mata_burned);
    system_state.remove_collateral(loan.penalty_to_harvest);
    loan.update_harvested_penalty();
}

} // verus!
