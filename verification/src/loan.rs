//! Per-loan persistent state and its bookkeeping rules.
//!
//! A loan tracks posted collateral, the fixed borrowed amount, and two
//! monotone penalty accumulators. The record invariant — harvested plus
//! pending penalty never exceeds the posted native-coin collateral — is
//! established at origination and preserved by every mutation here.

use vstd::prelude::*;

use crate::error::LucraErrorCode;
use crate::price::{lemma_wide_cmp, mul_wide, Price};

verus! {

/// Which collateral combination backs the loan; fixed for the loan's life.
#[derive(Clone, Copy, Debug, PartialEq, Eq, Structural)]
pub enum LoanType {
    /// Native-coin derivative collateral only.
    Default,
    /// Native-coin derivative plus locked governance stake.
    LucraBacked,
}

/// One open credit position.
#[derive(Clone, Copy, Debug, PartialEq, Eq, Structural)]
pub struct MataLoan {
    /// Identity with the exclusive right to operate the loan.
    pub owner: u64,
    pub loan_type: LoanType,
    /// Terminal flag: a repaid loan is never mutated again.
    pub repaid: bool,
    /// Collateral requirement in hundredths at origination, kept for audit.
    pub collateral_rate: u32,
    /// Native-coin collateral in smallest units; additive only.
    pub sol_collateral_amount: u64,
    /// Governance-stake collateral value locked for this loan.
    pub staking_collateral_amount: u64,
    /// Native-coin price at origination, recorded for audit only.
    pub market_price: u64,
    /// Borrowed-asset principal in smallest units, fixed at origination.
    pub loan_amount: u64,
    /// Penalty already liquidated, monotone non-decreasing.
    pub penalty_harvested: u64,
    /// Penalty accrued and awaiting liquidation.
    pub penalty_to_harvest: u64,
    /// Origination timestamp: time-lock anchor, and no earlier history day
    /// is ever charged.
    pub loan_creation_date: i64,
    /// High-water mark preventing re-charging already-processed days.
    pub last_day_penalty_was_checked: i64,
}

/// Scale from a dollar value to hundredths of a percent of the debt:
/// `100` percent points times the `10^6` smallest units per borrowed-asset
/// unit.
pub const PERCENT_SCALE: u128 = 100_000_000;

/// Annual penalty rate in hundredths for a day on which the collateral was
/// worth `cv_num / cv_den` dollars against a debt of `loan_amount` smallest
/// units. The schedule doubles for every quarter of the debt the collateral
/// falls below it, and collapses to a nuisance rate once the position is
/// worth more than its debt:
///
/// | collateral as % of debt | annual rate |
/// |-------------------------|-------------|
/// | below 25%               | 3600%       |
/// | 25% to 50%              | 1600%       |
/// | 50% to 75%              | 800%        |
/// | 75% to 100%             | 400%        |
/// | 100% to 150%            | 50%         |
/// | 150% to 200%            | 20%         |
/// | 200% and above          | none        |
pub open spec fn spec_penalty_rate(cv_num: int, cv_den: int, loan_amount: int) -> u32 {
    if cv_num * PERCENT_SCALE < 25 * loan_amount * cv_den {
        3600
    } else if cv_num * PERCENT_SCALE < 50 * loan_amount * cv_den {
        1600
    } else if cv_num * PERCENT_SCALE < 75 * loan_amount * cv_den {
        800
    } else if cv_num * PERCENT_SCALE < 100 * loan_amount * cv_den {
        400
    } else if cv_num * PERCENT_SCALE < 150 * loan_amount * cv_den {
        50
    } else if cv_num * PERCENT_SCALE < 200 * loan_amount * cv_den {
        20
    } else {
        0
    }
}

/// Whether the collateral value is below `threshold` percent of the debt.
fn percent_below(collateral_value: &Price, loan_amount: u64, threshold: u64) -> (r: bool)
    requires
        collateral_value.wf(),
        threshold <= 1000,
    ensures
        r == (collateral_value.num * PERCENT_SCALE < threshold * loan_amount
            * collateral_value.den),
{
    let (lh, ll) = mul_wide(collateral_value.num, PERCENT_SCALE);
    proof {
        assert(threshold as int * loan_amount as int <= u128::MAX) by (nonlinear_arith)
            requires
                threshold <= 1000,
                loan_amount <= u64::MAX,
        ;
    }
    let factor: u128 = (threshold as u128) * (loan_amount as u128);
    let (rh, rl) = mul_wide(factor, collateral_value.den);
    proof {
        lemma_wide_cmp(lh as int, ll as int, rh as int, rl as int);
        assert(factor * collateral_value.den == threshold * loan_amount * collateral_value.den)
            by (nonlinear_arith)
            requires
                factor == threshold * loan_amount,
        ;
    }
    lh < rh || (lh == rh && ll < rl)
}

impl MataLoan {
    /// The record invariant: penalty bookkeeping never exceeds the posted
    /// native-coin collateral.
    pub open spec fn wf(self) -> bool {
        self.penalty_harvested + self.penalty_to_harvest <= self.sol_collateral_amount
    }

    /// The annual penalty rate band for one history day, from the exact
    /// dollar value of that day's collateral. Total: every collateral value
    /// falls in exactly one band.
    pub fn calc_penalty_rate_percentage(&self, collateral_value: &Price) -> (r: u32)
        requires
            collateral_value.wf(),
        ensures
            r == spec_penalty_rate(
                collateral_value.num as int,
                collateral_value.den as int,
                self.loan_amount as int,
            ),
            r <= 3600,
    {
        if percent_below(collateral_value, self.loan_amount, 25) {
            3600
        } else if percent_below(collateral_value, self.loan_amount, 50) {
            1600
        } else if percent_below(collateral_value, self.loan_amount, 75) {
            800
        } else if percent_below(collateral_value, self.loan_amount, 100) {
            400
        } else if percent_below(collateral_value, self.loan_amount, 150) {
            50
        } else if percent_below(collateral_value, self.loan_amount, 200) {
            20
        } else {
            0
        }
    }

    /// Add an accrued charge to the pending-penalty accumulator, capped so
    /// the record invariant holds whatever the charge.
    pub fn add_penalty_to_harvest(&mut self, amount: u64)
        requires
            old(self).wf(),
        ensures
            final(self).wf(),
            final(self).penalty_to_harvest == if old(self).penalty_to_harvest + amount <= old(
                self,
            ).sol_collateral_amount - old(self).penalty_harvested {
                old(self).penalty_to_harvest + amount
            } else {
                old(self).sol_collateral_amount - old(self).penalty_harvested
            },
            *final(self) == (MataLoan { penalty_to_harvest: final(self).penalty_to_harvest, ..*old(
                self,
            ) }),
    {
        let room = self.sol_collateral_amount - self.penalty_harvested;
        let headroom = room - self.penalty_to_harvest;
        if amount > headroom {
            self.penalty_to_harvest = room;
        } else {
            self.penalty_to_harvest = self.penalty_to_harvest + amount;
        }
    }

    /// Advance the high-water mark of processed days.
    pub fn update_last_day_penalty_was_checked(&mut self, timestamp: i64)
        ensures
            *final(self) == (MataLoan { last_day_penalty_was_checked: timestamp, ..*old(self) }),
    {
        self.last_day_penalty_was_checked = timestamp;
    }

    /// Move the whole pending penalty into the harvested accumulator.
    pub fn update_harvested_penalty(&mut self)
        requires
            old(self).wf(),
        ensures
            final(self).wf(),
            final(self).penalty_harvested == old(self).penalty_harvested + old(
                self,
            ).penalty_to_harvest,
            final(self).penalty_to_harvest == 0,
            *final(self) == (MataLoan {
                penalty_harvested: final(self).penalty_harvested,
                penalty_to_harvest: 0,
                ..*old(self)
            }),
    {
        self.penalty_harvested = self.penalty_harvested + self.penalty_to_harvest;
        self.penalty_to_harvest = 0;
    }

    /// Post further native-coin collateral.
    pub fn add_sol_collateral(&mut self, lamports: u64) -> (r: Result<(), LucraErrorCode>)
        requires
            old(self).wf(),
        ensures
            r is Ok <==> old(self).sol_collateral_amount + lamports <= u64::MAX,
            r is Ok ==> *final(self) == (MataLoan {
                sol_collateral_amount: (old(self).sol_collateral_amount + lamports) as u64,
                ..*old(self)
            }) && final(self).wf(),
            r is Err ==> *final(self) == *old(self) && r->Err_0 == LucraErrorCode::MathError,
    {
        match self.sol_collateral_amount.checked_add(lamports) {
            Some(v) => {
                self.sol_collateral_amount = v;
                Ok(())
            },
            None => Err(LucraErrorCode::MathError),
        }
    }

    /// Post further governance-stake collateral value.
    pub fn add_staking_collateral(&mut self, amount: u64) -> (r: Result<(), LucraErrorCode>)
        requires
            old(self).wf(),
        ensures
            r is Ok <==> old(self).staking_collateral_amount + amount <= u64::MAX,
            r is Ok ==> *final(self) == (MataLoan {
                staking_collateral_amount: (old(self).staking_collateral_amount + amount) as u64,
                ..*old(self)
            }) && final(self).wf(),
            r is Err ==> *final(self) == *old(self) && r->Err_0 == LucraErrorCode::MathError,
    {
        match self.staking_collateral_amount.checked_add(amount) {
            Some(v) => {
                self.staking_collateral_amount = v;
                Ok(())
            },
            None => Err(LucraErrorCode::MathError),
        }
    }

    /// Enter the terminal state.
    pub fn mark_repaid(&mut self)
        ensures
            *final(self) == (MataLoan { repaid: true, ..*old(self) }),
    {
        self.repaid = true;
    }

    /// The collateral still owed back to the borrower at close.
    pub fn calc_remaining_sol(&self) -> (r: u64)
        requires
            self.wf(),
        ensures
            r == self.sol_collateral_amount - self.penalty_harvested,
    {
        self.sol_collateral_amount - self.penalty_harvested
    }
}

impl Default for MataLoan {
    /// The all-zero record a fresh account holds before origination.
    fn default() -> (r: MataLoan)
        ensures
            r == (MataLoan {
                owner: 0,
                loan_type: LoanType::Default,
                repaid: false,
                collateral_rate: 0,
                sol_collateral_amount: 0,
                staking_collateral_amount: 0,
                market_price: 0,
                loan_amount: 0,
                penalty_harvested: 0,
                penalty_to_harvest: 0,
                loan_creation_date: 0,
                last_day_penalty_was_checked: 0,
            }),
            r.wf(),
    {
        MataLoan {
            owner: 0,
            loan_type: LoanType::Default,
            repaid: false,
            collateral_rate: 0,
            sol_collateral_amount: 0,
            staking_collateral_amount: 0,
            market_price: 0,
            loan_amount: 0,
            penalty_harvested: 0,
            penalty_to_harvest: 0,
            loan_creation_date: 0,
            last_day_penalty_was_checked: 0,
        }
    }
}

/// A staker's balances: total stake and the part locked behind loans.
#[derive(Clone, Copy, Debug, PartialEq, Eq, Structural)]
pub struct StakingAccount {
    pub owner: u64,
    /// Total governance stake the account holds.
    pub total: u64,
    /// Stake value already pledged to open loans.
    pub locked_total: u64,
}

impl StakingAccount {
    /// Pledge further stake value to a loan.
    pub fn add_locked_total(&mut self, amount: u64)
        ensures
            final(self).locked_total == if old(self).locked_total + amount <= u64::MAX {
                old(self).locked_total + amount
            } else {
                u64::MAX as int
            },
            final(self).owner == old(self).owner,
            final(self).total == old(self).total,
    {
        self.locked_total = self.locked_total.saturating_add(amount);
    }

    /// Release stake value pledged to a closed loan.
    pub fn remove_locked_total(&mut self, amount: u64)
        ensures
            final(self).locked_total == if old(self).locked_total >= amount {
                old(self).locked_total - amount
            } else {
                0
            },
            final(self).owner == old(self).owner,
            final(self).total == old(self).total,
    {
        self.locked_total = self.locked_total.saturating_sub(amount);
    }
}

} // verus!
