//! The penalty accrual algorithm.
//!
//! One invocation walks the price-history ledger once and charges every
//! elapsed, unprocessed day: a day is skipped when its prices are zeroed,
//! when it precedes the loan, when it is still in progress (today), or when
//! it was already charged. Each eligible day contributes one day of simple
//! interest on the native-coin collateral at the risk-band rate for that
//! day's collateral value, times the peg-deviation multiplier; the running
//! total is capped so penalties never exceed the posted collateral.

use vstd::arithmetic::div_mod::lemma_multiply_divide_lt;
use vstd::prelude::*;

use crate::error::LucraErrorCode;
use crate::history::{spec_day_start, day_start, HistoricPrice, PriceHistory, UNIX_DAY};
use crate::loan::{spec_penalty_rate, MataLoan};
use crate::price::{pow10, Price};
use crate::rates::{
    calculate_annual_interest_rate, spec_interest_charge, RatePeriod, CHARGE_DENOM,
    CHARGE_INPUT_MAX, ONE_DAY_OF_YEAR,
};

verus! {

/// Smallest units per native coin.
pub const LAMPORTS_PER_SOL: u64 = 1_000_000_000;

/// Smallest units per governance token.
pub const LAMPORTS_PER_LUCRA: u64 = 1_000_000_000;

/// Smallest units per borrowed-asset unit.
pub const LAMPORTS_PER_MATA: u64 = 1_000_000;

/// Width of one deviation band of the peg multiplier, in twentieths.
pub const PEG_BANDS_PER_UNIT: u128 = 20;

/// The peg-deviation multiplier: one at or above the peg, else doubling
/// with every five-hundredths band the price sits below it.
pub open spec fn spec_penalty_multiplier(p: Price) -> int {
    if p.num >= p.den {
        1
    } else {
        2 * (20 - p.num * PEG_BANDS_PER_UNIT / (p.den as int))
    }
}

/// Deviation multiplier for the synthetic asset's market price.
pub fn calculate_penalty_multiplier(mata_price: &Price) -> (r: Result<u64, LucraErrorCode>)
    requires
        mata_price.wf(),
    ensures
        r is Ok <==> (mata_price.num >= mata_price.den || mata_price.num * PEG_BANDS_PER_UNIT
            <= u128::MAX),
        r is Ok ==> r->Ok_0 == spec_penalty_multiplier(*mata_price),
        r is Ok ==> 1 <= r->Ok_0 <= 40,
        r is Err ==> r->Err_0 == LucraErrorCode::MathError,
{
    if mata_price.num >= mata_price.den {
        return Ok(1);
    }
    let scaled = match mata_price.num.checked_mul(PEG_BANDS_PER_UNIT) {
        Some(s) => s,
        None => {
            return Err(LucraErrorCode::MathError);
        },
    };
    let bands = scaled / mata_price.den;
    proof {
        assert(scaled < mata_price.den * PEG_BANDS_PER_UNIT) by (nonlinear_arith)
            requires
                scaled == mata_price.num * PEG_BANDS_PER_UNIT,
                mata_price.num < mata_price.den,
        ;
        lemma_multiply_divide_lt(scaled as int, mata_price.den as int, PEG_BANDS_PER_UNIT as int);
    }
    Ok(2 * (20 - bands as u64))
}

/// Denominator of one collateral leg: the asset's price scale times the
/// smallest units per coin.
pub open spec fn spec_leg_den(decimals: nat) -> int {
    pow10(decimals) * (LAMPORTS_PER_SOL as int)
}

/// Numerator of the exact dollar value of both collateral legs on one day.
pub open spec fn spec_cv_num(
    sol_price: int,
    sol_decimals: nat,
    sol_amount: int,
    lucra_price: int,
    lucra_decimals: nat,
    staking_amount: int,
) -> int {
    sol_amount * sol_price * spec_leg_den(lucra_decimals) + staking_amount * lucra_price
        * spec_leg_den(sol_decimals)
}

/// Denominator of the exact dollar value of both collateral legs.
pub open spec fn spec_cv_den(sol_decimals: nat, lucra_decimals: nat) -> int {
    spec_leg_den(sol_decimals) * spec_leg_den(lucra_decimals)
}

/// Whether the exact collateral value fits the 128-bit machine words.
pub open spec fn spec_cv_fits(
    sol_price: int,
    sol_decimals: nat,
    sol_amount: int,
    lucra_price: int,
    lucra_decimals: nat,
    staking_amount: int,
) -> bool {
    &&& sol_decimals <= 38
    &&& lucra_decimals <= 38
    &&& spec_leg_den(sol_decimals) <= u128::MAX
    &&& spec_leg_den(lucra_decimals) <= u128::MAX
    &&& sol_amount * sol_price * spec_leg_den(lucra_decimals) <= u128::MAX
    &&& staking_amount * lucra_price * spec_leg_den(sol_decimals) <= u128::MAX
    &&& spec_cv_num(sol_price, sol_decimals, sol_amount, lucra_price, lucra_decimals,
    staking_amount) <= u128::MAX
    &&& spec_cv_den(sol_decimals, lucra_decimals) <= u128::MAX
}

/// The exact dollar value of the collateral for one day's snapshotted
/// prices: `sol_amount * sol_price / 10^(sol_decimals) / LAMPORTS_PER_SOL`
/// plus the same for the staked leg.
pub fn calculate_collateral_value(
    sol_price: u64,
    sol_decimals: u8,
    sol_collateral_amount: u64,
    lucra_price: u64,
    lucra_decimals: u8,
    staking_collateral_amount: u64,
) -> (r: Result<Price, LucraErrorCode>)
    ensures
        r is Ok <==> spec_cv_fits(
            sol_price as int,
            sol_decimals as nat,
            sol_collateral_amount as int,
            lucra_price as int,
            lucra_decimals as nat,
            staking_collateral_amount as int,
        ),
        r is Ok ==> r->Ok_0.wf() && r->Ok_0.num == spec_cv_num(
            sol_price as int,
            sol_decimals as nat,
            sol_collateral_amount as int,
            lucra_price as int,
            lucra_decimals as nat,
            staking_collateral_amount as int,
        ) && r->Ok_0.den == spec_cv_den(sol_decimals as nat, lucra_decimals as nat),
        r is Err ==> r->Err_0 == LucraErrorCode::MathError,
{
    if sol_decimals > 38 || lucra_decimals > 38 {
        return Err(LucraErrorCode::MathError);
    }
    let sol_scale = crate::price::pow10_u128(sol_decimals as u32);
    let lucra_scale = crate::price::pow10_u128(lucra_decimals as u32);
    proof {
        crate::price::lemma_pow10_pos(sol_decimals as nat);
        crate::price::lemma_pow10_pos(lucra_decimals as nat);
    }
    let den_sol = match sol_scale.checked_mul(LAMPORTS_PER_SOL as u128) {
        Some(d) => d,
        None => {
            return Err(LucraErrorCode::MathError);
        },
    };
    let den_lucra = match lucra_scale.checked_mul(LAMPORTS_PER_SOL as u128) {
        Some(d) => d,
        None => {
            return Err(LucraErrorCode::MathError);
        },
    };
    proof {
        assert(sol_collateral_amount * sol_price <= u128::MAX) by (nonlinear_arith)
            requires
                sol_collateral_amount <= u64::MAX,
                sol_price <= u64::MAX,
        ;
        assert(staking_collateral_amount * lucra_price <= u128::MAX) by (nonlinear_arith)
            requires
                staking_collateral_amount <= u64::MAX,
                lucra_price <= u64::MAX,
        ;
    }
    let sol_leg: u128 = (sol_collateral_amount as u128) * (sol_price as u128);
    let lucra_leg: u128 = (staking_collateral_amount as u128) * (lucra_price as u128);
    let a = match sol_leg.checked_mul(den_lucra) {
        Some(v) => v,
        None => {
            return Err(LucraErrorCode::MathError);
        },
    };
    let b = match lucra_leg.checked_mul(den_sol) {
        Some(v) => v,
        None => {
            return Err(LucraErrorCode::MathError);
        },
    };
    let num = match a.checked_add(b) {
        Some(v) => v,
        None => {
            return Err(LucraErrorCode::MathError);
        },
    };
    let den = match den_sol.checked_mul(den_lucra) {
        Some(v) => v,
        None => {
            return Err(LucraErrorCode::MathError);
        },
    };
    proof {
        assert(den >= 1) by (nonlinear_arith)
            requires
                den == den_sol * den_lucra,
                den_sol >= 1,
                den_lucra >= 1,
        ;
    }
    Ok(Price { num, den })
}

/// Whether the accrual walk charges this ledger slot: valid prices, not
/// before the loan existed, not today, not already processed.
pub open spec fn spec_day_eligible(
    e: HistoricPrice,
    loan: MataLoan,
    today: int,
    last_day: int,
) -> bool {
    &&& e.sol_price != 0
    &&& e.lucra_price != 0
    &&& e.date >= loan.loan_creation_date
    &&& e.date != today
    &&& e.date > last_day
}

/// The risk-band rate for one slot's snapshotted collateral value.
pub open spec fn spec_day_rate(e: HistoricPrice, loan: MataLoan) -> u32 {
    spec_penalty_rate(
        spec_cv_num(
            e.sol_price as int,
            e.sol_decimals as nat,
            loan.sol_collateral_amount as int,
            e.lucra_price as int,
            e.lucra_decimals as nat,
            loan.staking_collateral_amount as int,
        ),
        spec_cv_den(e.sol_decimals as nat, e.lucra_decimals as nat),
        loan.loan_amount as int,
    )
}

/// Whether one slot's collateral value fits the machine words.
pub open spec fn spec_day_fits(e: HistoricPrice, loan: MataLoan) -> bool {
    spec_cv_fits(
        e.sol_price as int,
        e.sol_decimals as nat,
        loan.sol_collateral_amount as int,
        e.lucra_price as int,
        e.lucra_decimals as nat,
        loan.staking_collateral_amount as int,
    )
}

/// One eligible day's charge before the deviation multiplier: a day of
/// simple interest on the native-coin collateral at the day's band rate.
pub open spec fn spec_day_charge(e: HistoricPrice, loan: MataLoan) -> int {
    spec_interest_charge(
        spec_day_rate(e, loan) as int,
        loan.sol_collateral_amount as int,
        ONE_DAY_OF_YEAR as int,
    )
}

/// What one slot adds to the accrual total.
pub open spec fn spec_day_contribution(
    e: HistoricPrice,
    loan: MataLoan,
    today: int,
    last_day: int,
    multiplier: int,
) -> int {
    if spec_day_eligible(e, loan, today, last_day) {
        spec_day_charge(e, loan) * multiplier
    } else {
        0
    }
}

/// Sum of the first `i` slots' contributions.
pub open spec fn spec_accrual_sum_to(
    s: Seq<HistoricPrice>,
    loan: MataLoan,
    today: int,
    last_day: int,
    multiplier: int,
    i: int,
) -> int
    decreases i,
{
    if i <= 0 {
        0
    } else {
        spec_accrual_sum_to(s, loan, today, last_day, multiplier, i - 1) + spec_day_contribution(
            s[i - 1],
            loan,
            today,
            last_day,
            multiplier,
        )
    }
}

/// The uncapped accrual total over the whole ledger.
pub open spec fn spec_accrual_sum(
    s: Seq<HistoricPrice>,
    loan: MataLoan,
    today: int,
    last_day: int,
    multiplier: int,
) -> int {
    spec_accrual_sum_to(s, loan, today, last_day, multiplier, s.len() as int)
}

/// Whether every eligible slot's collateral value fits the machine words.
pub open spec fn spec_all_days_fit(
    s: Seq<HistoricPrice>,
    loan: MataLoan,
    today: int,
    last_day: int,
) -> bool {
    forall|i: int|
        0 <= i < s.len() && spec_day_eligible(#[trigger] s[i], loan, today, last_day)
            ==> spec_day_fits(s[i], loan)
}

/// The capped total a successful accrual walk returns: the uncapped sum,
/// but never more than the collateral not yet harvested.
pub open spec fn spec_accrual_result(
    s: Seq<HistoricPrice>,
    loan: MataLoan,
    today: int,
    last_day: int,
    multiplier: int,
) -> int {
    let sum = spec_accrual_sum(s, loan, today, last_day, multiplier);
    let room = loan.sol_collateral_amount - loan.penalty_harvested;
    if sum > room {
        room
    } else {
        sum
    }
}

proof fn lemma_contribution_nonneg(
    e: HistoricPrice,
    loan: MataLoan,
    today: int,
    last_day: int,
    multiplier: int,
)
    requires
        multiplier >= 0,
    ensures
        spec_day_contribution(e, loan, today, last_day, multiplier) >= 0,
{
    if spec_day_eligible(e, loan, today, last_day) {
        assert(spec_day_charge(e, loan) >= 0) by {
            vstd::arithmetic::div_mod::lemma_div_pos_is_pos(
                loan.sol_collateral_amount as int * spec_day_rate(e, loan) as int
                    * ONE_DAY_OF_YEAR as int,
                CHARGE_DENOM as int,
            );
            assert(loan.sol_collateral_amount as int * spec_day_rate(e, loan) as int
                * ONE_DAY_OF_YEAR as int >= 0) by (nonlinear_arith)
                requires
                    loan.sol_collateral_amount >= 0,
                    spec_day_rate(e, loan) >= 0,
            ;
        }
        assert(spec_day_charge(e, loan) * multiplier >= 0) by (nonlinear_arith)
            requires
                spec_day_charge(e, loan) >= 0,
                multiplier >= 0,
        ;
    }
}

proof fn lemma_sum_nonneg(
    s: Seq<HistoricPrice>,
    loan: MataLoan,
    today: int,
    last_day: int,
    multiplier: int,
    i: int,
)
    requires
        multiplier >= 0,
    ensures
        spec_accrual_sum_to(s, loan, today, last_day, multiplier, i) >= 0,
    decreases i,
{
    if i > 0 {
        lemma_sum_nonneg(s, loan, today, last_day, multiplier, i - 1);
        lemma_contribution_nonneg(s[i - 1], loan, today, last_day, multiplier);
    }
}

/// One day of simple interest on the collateral at a band rate; the band
/// rates are small enough that this can never fail.
fn charge_for_day(rate: u32, amount: u64) -> (r: u64)
    requires
        rate <= 3600,
    ensures
        r == spec_interest_charge(rate as int, amount as int, ONE_DAY_OF_YEAR as int),
{
    let period = RatePeriod::one_day();
    proof {
        assert(amount * rate <= CHARGE_INPUT_MAX) by (nonlinear_arith)
            requires
                amount <= u64::MAX,
                rate <= 3600,
        ;
        let full = amount as int * rate as int * ONE_DAY_OF_YEAR as int;
        let cap = CHARGE_DENOM as int * u64::MAX as int;
        assert(full < cap) by (nonlinear_arith)
            requires
                full == amount as int * rate as int * ONE_DAY_OF_YEAR as int,
                cap == CHARGE_DENOM as int * u64::MAX as int,
                0 <= amount <= u64::MAX,
                0 <= rate <= 3600,
        ;
        lemma_multiply_divide_lt(full, CHARGE_DENOM as int, u64::MAX as int);
    }
    match calculate_annual_interest_rate(rate, amount, &period) {
        Ok(c) => c,
        Err(_) => {
            proof {
                assert(false);
            }
            0
        },
    }
}

/// Walk every ledger slot and total the charges for the eligible days,
/// capped at the collateral not yet harvested. Pure: mutates nothing; the
/// caller applies the result to the loan. Fails only when an eligible
/// day's collateral value exceeds the machine words.
pub fn accumulate_penalty_rate_charge(
    price_history: &PriceHistory,
    loan: &MataLoan,
    penalty_multiplier: u64,
    timestamp: i64,
) -> (r: Result<u64, LucraErrorCode>)
    requires
        loan.wf(),
        i64::MIN + UNIX_DAY <= timestamp,
        i64::MIN + UNIX_DAY <= loan.last_day_penalty_was_checked,
    ensures
        ({
            let today = spec_day_start(timestamp as int);
            let last_day = spec_day_start(loan.last_day_penalty_was_checked as int);
            &&& (r is Ok <==> spec_all_days_fit(price_history.prices@, *loan, today, last_day))
            &&& (r is Ok ==> r->Ok_0 == spec_accrual_result(
                price_history.prices@,
                *loan,
                today,
                last_day,
                penalty_multiplier as int,
            ))
            &&& (r is Err ==> r->Err_0 == LucraErrorCode::MathError)
        }),
{
    let today = day_start(timestamp);
    let last_day = day_start(loan.last_day_penalty_was_checked);
    let ghost gtoday = today as int;
    let ghost glast = last_day as int;
    let ghost s = price_history.prices@;
    let ghost m = penalty_multiplier as int;
    let n = price_history.prices.len();
    let mut acc: u64 = 0;
    let mut i: usize = 0;
    while i < n
        invariant
            i <= n == s.len(),
            s == price_history.prices@,
            loan.wf(),
            gtoday == spec_day_start(timestamp as int),
            glast == spec_day_start(loan.last_day_penalty_was_checked as int),
            today as int == gtoday,
            last_day as int == glast,
            m == penalty_multiplier as int,
            forall|j: int|
                0 <= j < i && spec_day_eligible(#[trigger] s[j], *loan, gtoday, glast)
                    ==> spec_day_fits(s[j], *loan),
            acc == if spec_accrual_sum_to(s, *loan, gtoday, glast, m, i as int) > u64::MAX {
                u64::MAX as int
            } else {
                spec_accrual_sum_to(s, *loan, gtoday, glast, m, i as int)
            },
        decreases n - i,
    {
        let e = price_history.prices[i];
        proof {
            assert(e == s[i as int]);
        }
        if e.sol_price != 0 && e.lucra_price != 0 && e.date >= loan.loan_creation_date && e.date
            != today && e.date > last_day {
            proof {
                assert(spec_day_eligible(s[i as int], *loan, gtoday, glast));
            }
            let cv = match calculate_collateral_value(
                e.sol_price,
                e.sol_decimals,
                loan.sol_collateral_amount,
                e.lucra_price,
                e.lucra_decimals,
                loan.staking_collateral_amount,
            ) {
                Ok(v) => v,
                Err(code) => {
                    proof {
                        assert(!spec_day_fits(s[i as int], *loan));
                        assert(!spec_all_days_fit(s, *loan, gtoday, glast));
                    }
                    return Err(code);
                },
            };
            let rate = loan.calc_penalty_rate_percentage(&cv);
            let charge = charge_for_day(rate, loan.sol_collateral_amount);
            let day_total = match charge.checked_mul(penalty_multiplier) {
                Some(v) => v,
                None => u64::MAX,
            };
            proof {
                lemma_sum_nonneg(s, *loan, gtoday, glast, m, i as int);
                lemma_contribution_nonneg(s[i as int], *loan, gtoday, glast, m);
                assert(spec_day_contribution(s[i as int], *loan, gtoday, glast, m)
                    == spec_day_charge(s[i as int], *loan) * m);
                assert(day_total == if spec_day_charge(s[i as int], *loan) * m > u64::MAX {
                    u64::MAX as int
                } else {
                    spec_day_charge(s[i as int], *loan) * m
                });
            }
            acc = acc.saturating_add(day_total);
        } else {
            proof {
                assert(!spec_day_eligible(s[i as int], *loan, gtoday, glast));
                assert(spec_day_contribution(s[i as int], *loan, gtoday, glast, m) == 0);
            }
        }
        proof {
            assert(spec_accrual_sum_to(s, *loan, gtoday, glast, m, i as int + 1)
                == spec_accrual_sum_to(s, *loan, gtoday, glast, m, i as int)
                + spec_day_contribution(s[i as int], *loan, gtoday, glast, m));
        }
        i = i + 1;
    }
    let room = loan.sol_collateral_amount - loan.penalty_harvested;
    proof {
        lemma_sum_nonneg(s, *loan, gtoday, glast, m, n as int);
    }
    if acc > room {
        Ok(room)
    } else {
        Ok(acc)
    }
}

/// Determine the penalty owed on a loan: derive the deviation multiplier
/// from the synthetic asset's market price, charge every eligible ledger
/// day, add the capped total to the pending penalty and advance the
/// processed-days checkpoint to `now`. The record invariant — pending plus
/// harvested penalty never exceeding the posted collateral — holds on exit.
pub fn determine_penalty(
    loan: &mut MataLoan,
    price_history: &PriceHistory,
    mata_price: &Price,
    now: i64,
) -> (r: Result<(), LucraErrorCode>)
    requires
        old(loan).wf(),
        mata_price.wf(),
        i64::MIN + UNIX_DAY <= now,
        i64::MIN + UNIX_DAY <= old(loan).last_day_penalty_was_checked,
    ensures
        final(loan).wf(),
        r is Err ==> *final(loan) == *old(loan),
        old(loan).repaid ==> r == Err::<(), _>(LucraErrorCode::InvalidAccountInput),
        !old(loan).repaid && old(loan).penalty_harvested >= old(loan).sol_collateral_amount ==> r
            == Err::<(), _>(LucraErrorCode::InvalidAmount),
        ({
            let today = spec_day_start(now as int);
            let last_day = spec_day_start(old(loan).last_day_penalty_was_checked as int);
            let ready = !old(loan).repaid && old(loan).penalty_harvested < old(
                loan,
            ).sol_collateral_amount;
            let mult_ok = mata_price.num >= mata_price.den || mata_price.num * PEG_BANDS_PER_UNIT
                <= u128::MAX;
            let mult = spec_penalty_multiplier(*mata_price);
            let fits = spec_all_days_fit(price_history.prices@, *old(loan), today, last_day);
            let charge = spec_accrual_result(price_history.prices@, *old(loan), today, last_day,
            mult);
            let room = old(loan).sol_collateral_amount - old(loan).penalty_harvested;
            &&& (ready && !mult_ok ==> r == Err::<(), _>(LucraErrorCode::MathError))
            &&& (ready && mult_ok && !fits ==> r == Err::<(), _>(LucraErrorCode::MathError))
            &&& (r is Ok <==> ready && mult_ok && fits)
            &&& (r is Ok ==> *final(loan) == (MataLoan {
                penalty_to_harvest: (if old(loan).penalty_to_harvest + charge <= room {
                    old(loan).penalty_to_harvest + charge
                } else {
                    room
                }) as u64,
                last_day_penalty_was_checked: now,
                ..*old(loan)
            }))
        }),
{
    if loan.repaid {
        return Err(LucraErrorCode::InvalidAccountInput);
    }
    if loan.penalty_harvested >= loan.sol_collateral_amount {
        return Err(LucraErrorCode::InvalidAmount);
    }
    let penalty_multiplier = match calculate_penalty_multiplier(mata_price) {
        Ok(mlt) => mlt,
        Err(code) => {
            return Err(code);
        },
    };
    let penalty_to_charge = match accumulate_penalty_rate_charge(
        price_history,
        loan,
        penalty_multiplier,
        now,
    ) {
        Ok(charge) => charge,
        Err(code) => {
            return Err(code);
        },
    };
    loan.add_penalty_to_harvest(penalty_to_charge);
    loan.update_last_day_penalty_was_checked(now);
    Ok(())
}

} // verus!
