//! Simple-interest charges: `A = P * r * t`.
//!
//! A rate is a whole number of hundredths (`rate` of 1050 means a factor
//! of 10.50 per year). A period is a fraction of the year carried to 28
//! fractional decimal digits, the precision the charge arithmetic keeps;
//! the charge is the floor of the exact product
//! `amount * (rate / 100) * period`, rounded once, at the end.

use vstd::arithmetic::div_mod::{
    lemma_fundamental_div_mod, lemma_fundamental_div_mod_converse,
    lemma_mod_division_less_than_divisor, lemma_multiply_divide_lt,
};
use vstd::prelude::*;

use crate::error::LucraErrorCode;

verus! {

/// 10^13, low split of a period mantissa.
pub const RATE_SPLIT_LOW: u128 = 10_000_000_000_000;

/// 10^17, quotient base of the staged division.
pub const RATE_SPLIT_HIGH: u128 = 100_000_000_000_000_000;

/// 10^28, the denominator of a period mantissa.
pub const PERIOD_ONE: u128 = 10_000_000_000_000_000_000_000_000_000;

/// 10^30: period denominator times the rate scale of 100.
pub const CHARGE_DENOM: u128 = 1_000_000_000_000_000_000_000_000_000_000;

/// Largest `amount * rate` product the staged division accepts; anything
/// beyond it surfaces `MathError`.
pub const CHARGE_INPUT_MAX: u128 = 100_000_000_000_000_000_000_000;

/// One day of the year basis penalties are charged on, as 28 fractional
/// decimal digits of the year fraction. The charging year is 356 days by
/// design, not 365: every exact daily charge the engine owes — including
/// the worked values its tests pin — is defined over this basis, so it is
/// part of the facility's behaviour, not a rounding of the calendar.
pub const ONE_DAY_OF_YEAR: u128 = 28_089_887_640_449_438_202_247_191;

/// One week as 28 fractional decimal digits of 1/52 of a year.
pub const ONE_WEEK_OF_YEAR: u128 = 192_307_692_307_692_307_692_307_692;

/// A fraction of a year, `mantissa / 10^28`, strictly below one year.
#[derive(Clone, Copy, Debug, PartialEq, Eq, Structural)]
pub struct RatePeriod {
    pub mantissa: u128,
}

impl RatePeriod {
    pub open spec fn wf(self) -> bool {
        self.mantissa < PERIOD_ONE
    }

    /// The accrual algorithm's one-day period.
    pub fn one_day() -> (r: RatePeriod)
        ensures
            r.wf(),
            r.mantissa == ONE_DAY_OF_YEAR,
    {
        RatePeriod { mantissa: ONE_DAY_OF_YEAR }
    }

    /// The reward schedule's one-week period.
    pub fn one_week() -> (r: RatePeriod)
        ensures
            r.wf(),
            r.mantissa == ONE_WEEK_OF_YEAR,
    {
        RatePeriod { mantissa: ONE_WEEK_OF_YEAR }
    }
}

/// The exact charge `floor(amount * rate * mantissa / 10^30)`.
pub open spec fn spec_interest_charge(rate: int, amount: int, mantissa: int) -> int {
    amount * rate * mantissa / (CHARGE_DENOM as int)
}

/// Staged exact division: `a * mantissa / 10^30` without a 256-bit word.
fn mul_div_period(a: u128, mantissa: u128) -> (r: u128)
    requires
        a <= CHARGE_INPUT_MAX,
        mantissa < PERIOD_ONE,
    ensures
        r == a * mantissa / (CHARGE_DENOM as int),
{
    let m1: u128 = mantissa / RATE_SPLIT_LOW;
    let m0: u128 = mantissa % RATE_SPLIT_LOW;
    proof {
        lemma_fundamental_div_mod(mantissa as int, RATE_SPLIT_LOW as int);
        lemma_mod_division_less_than_divisor(mantissa as int, RATE_SPLIT_LOW as int);
        lemma_multiply_divide_lt(mantissa as int, RATE_SPLIT_LOW as int, 1_000_000_000_000_000);
        assert(a * m1 <= CHARGE_INPUT_MAX * 1_000_000_000_000_000) by (nonlinear_arith)
            requires
                0 <= a <= CHARGE_INPUT_MAX,
                0 <= m1 < 1_000_000_000_000_000,
        ;
    }
    let x: u128 = a * m1;
    let q1: u128 = x / RATE_SPLIT_HIGH;
    let r1: u128 = x % RATE_SPLIT_HIGH;
    proof {
        lemma_fundamental_div_mod(x as int, RATE_SPLIT_HIGH as int);
        lemma_mod_division_less_than_divisor(x as int, RATE_SPLIT_HIGH as int);
        assert(a * m0 <= CHARGE_INPUT_MAX * RATE_SPLIT_LOW) by (nonlinear_arith)
            requires
                0 <= a <= CHARGE_INPUT_MAX,
                0 <= m0 < RATE_SPLIT_LOW,
        ;
    }
    let y: u128 = r1 * RATE_SPLIT_LOW + a * m0;
    let q2: u128 = y / CHARGE_DENOM;
    proof {
        lemma_fundamental_div_mod(y as int, CHARGE_DENOM as int);
        lemma_mod_division_less_than_divisor(y as int, CHARGE_DENOM as int);
        assert(a * mantissa == (q1 + q2) * (CHARGE_DENOM as int) + (y as int % CHARGE_DENOM
            as int)) by (nonlinear_arith)
            requires
                mantissa == RATE_SPLIT_LOW * m1 + m0,
                x == a * m1,
                x == RATE_SPLIT_HIGH * q1 + r1,
                y == r1 * RATE_SPLIT_LOW + a * m0,
                y == CHARGE_DENOM * q2 + (y as int % CHARGE_DENOM as int),
        ;
        lemma_fundamental_div_mod_converse(
            a as int * mantissa as int,
            CHARGE_DENOM as int,
            q1 as int + q2 as int,
            y as int % CHARGE_DENOM as int,
        );
    }
    q1 + q2
}

/// Simple interest for one period: `floor(amount * (rate / 100) * time)`.
/// `rate` is in hundredths; a product too large for the staged division, or
/// a charge beyond the 64-bit amount space, surfaces `MathError`.
pub fn calculate_annual_interest_rate(rate: u32, starting_amount: u64, time: &RatePeriod) -> (r:
    Result<u64, LucraErrorCode>)
    requires
        time.wf(),
    ensures
        r is Ok <==> starting_amount * rate <= CHARGE_INPUT_MAX && spec_interest_charge(
            rate as int,
            starting_amount as int,
            time.mantissa as int,
        ) <= u64::MAX,
        r is Ok ==> r->Ok_0 == spec_interest_charge(
            rate as int,
            starting_amount as int,
            time.mantissa as int,
        ),
        r is Err ==> r->Err_0 == LucraErrorCode::MathError,
{
    proof {
        assert(starting_amount as int * rate as int <= u128::MAX) by (nonlinear_arith)
            requires
                starting_amount <= u64::MAX,
                rate <= u32::MAX,
        ;
    }
    let a: u128 = (starting_amount as u128) * (rate as u128);
    if a > CHARGE_INPUT_MAX {
        return Err(LucraErrorCode::MathError);
    }
    let charge = mul_div_period(a, time.mantissa);
    if charge > u64::MAX as u128 {
        Err(LucraErrorCode::MathError)
    } else {
        Ok(charge as u64)
    }
}

/// A week of inflation at `inflation_rate` hundredths on the staked amount.
pub fn calculate_inflation(inflation_rate: u8, stake_amount: u64) -> (r: Result<
    u64,
    LucraErrorCode,
>)
    ensures
        r is Ok,
        r->Ok_0 == spec_interest_charge(
            inflation_rate as int,
            stake_amount as int,
            ONE_WEEK_OF_YEAR as int,
        ),
{
    let time = RatePeriod::one_week();
    proof {
        assert(stake_amount * inflation_rate <= CHARGE_INPUT_MAX) by (nonlinear_arith)
            requires
                stake_amount <= u64::MAX,
                inflation_rate <= u8::MAX,
        ;
        let full = stake_amount as int * inflation_rate as int * ONE_WEEK_OF_YEAR as int;
        let cap = CHARGE_DENOM as int * u64::MAX as int;
        assert(full < cap) by (nonlinear_arith)
            requires
                full == stake_amount as int * inflation_rate as int * ONE_WEEK_OF_YEAR as int,
                cap == CHARGE_DENOM as int * u64::MAX as int,
                0 <= stake_amount <= u64::MAX,
                0 <= inflation_rate <= u8::MAX,
        ;
        lemma_multiply_divide_lt(full, CHARGE_DENOM as int, u64::MAX as int);
    }
    calculate_annual_interest_rate(inflation_rate as u32, stake_amount, &time)
}

} // verus!
