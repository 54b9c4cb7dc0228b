//! The global system record: feature gates, configuration, the peg
//! monitor, and the facility-wide outstanding-debt and collateral
//! counters. Every loan operation re-validates its preconditions against
//! the current field values; nothing is cached between invocations.

use vstd::prelude::*;

use crate::error::LucraErrorCode;
use crate::price::{lemma_wide_cmp, mul_wide, Price};

verus! {

/// Denominator of the peg-deviation tolerance: the tolerance field counts
/// thousandths of the target value.
pub const PEG_TOLERANCE_SCALE: u128 = 1_000;

/// The slice of global state the loan engine reads and writes.
#[derive(Clone, Copy, Debug, PartialEq, Eq, Structural)]
pub struct SystemState {
    /// Whether loan origination, top-up and close are enabled at all.
    pub loans_enabled: bool,
    /// Whether the staking integration is enabled.
    pub staking_enabled: bool,
    /// Whether origination consults the peg monitor.
    pub peg_check_enabled: bool,
    /// Set when the synthetic asset's market price deviates from its
    /// target beyond tolerance; blocks new origination while set.
    pub peg_broken: bool,
    /// Allowed deviation from the peg, in thousandths of the target.
    pub peg_tolerance: u32,
    /// Required collateral value per borrowed value, in hundredths.
    pub collateral_requirement: u32,
    /// A deposit must exceed this to open a loan.
    pub min_deposit: u64,
    /// Time-lock length gating loan closure, in seconds.
    pub epoch: i64,
    /// A pending penalty below this is not worth liquidating.
    pub minimum_harvest_amount: u64,
    /// Fixed execution-incentive fee kept by the caller of a harvest.
    pub reward_fee: u32,
    /// Loan-to-collateral percentage for locked-stake loans, hundredths.
    pub lcp: u8,
    /// Synthetic asset currently minted against loans.
    pub total_outstanding_mata: u64,
    /// Hard cap on the synthetic asset minted against loans.
    pub maximum_outstanding_mata: u64,
    /// Native-coin collateral posted across all loans.
    pub total_sol_collateral: u64,
}

/// Whether `p` deviates from one by more than `tolerance` thousandths.
pub open spec fn spec_peg_deviates(p: Price, tolerance: u32) -> bool {
    if p.num >= p.den {
        (p.num - p.den) * PEG_TOLERANCE_SCALE > tolerance * p.den
    } else {
        (p.den - p.num) * PEG_TOLERANCE_SCALE > tolerance * p.den
    }
}

impl SystemState {
    /// One-time bootstrap of the global record. The peg starts whole, the
    /// counters at zero; the harvest threshold, harvest fee and peg
    /// tolerance start at zero until governance sets them.
    pub fn new(
        min_deposit: u64,
        collateral_requirement: u32,
        epoch: i64,
        loans_enabled: bool,
        staking_enabled: bool,
        peg_check_enabled: bool,
        maximum_outstanding_mata: u64,
        lcp: u8,
    ) -> (r: SystemState)
        ensures
            r == (SystemState {
                loans_enabled,
                staking_enabled,
                peg_check_enabled,
                peg_broken: false,
                peg_tolerance: 0,
                collateral_requirement,
                min_deposit,
                epoch,
                minimum_harvest_amount: 0,
                reward_fee: 0,
                lcp,
                total_outstanding_mata: 0,
                maximum_outstanding_mata,
                total_sol_collateral: 0,
            }),
    {
        SystemState {
            loans_enabled,
            staking_enabled,
            peg_check_enabled,
            peg_broken: false,
            peg_tolerance: 0,
            collateral_requirement,
            min_deposit,
            epoch,
            minimum_harvest_amount: 0,
            reward_fee: 0,
            lcp,
            total_outstanding_mata: 0,
            maximum_outstanding_mata,
            total_sol_collateral: 0,
        }
    }

    /// Re-judge the peg from a fresh market price of the synthetic asset:
    /// `peg_broken` becomes whether the price deviates from the target
    /// beyond tolerance. Nothing else changes.
    pub fn update_peg(&mut self, observed_price: &Price)
        requires
            observed_price.wf(),
        ensures
            final(self).peg_broken == spec_peg_deviates(*observed_price, old(self).peg_tolerance),
            *final(self) == (SystemState { peg_broken: final(self).peg_broken, ..*old(self) }),
    {
        let diff: u128 = if observed_price.num >= observed_price.den {
            observed_price.num - observed_price.den
        } else {
            observed_price.den - observed_price.num
        };
        let (dh, dl) = mul_wide(diff, PEG_TOLERANCE_SCALE);
        let (th, tl) = mul_wide(self.peg_tolerance as u128, observed_price.den);
        proof {
            lemma_wide_cmp(th as int, tl as int, dh as int, dl as int);
        }
        self.peg_broken = dh > th || (dh == th && dl > tl);
    }

    /// Account for newly minted synthetic asset; refused beyond the cap.
    pub fn add_outstanding_mata(&mut self, amount: u64) -> (r: Result<(), LucraErrorCode>)
        ensures
            r is Ok <==> old(self).total_outstanding_mata + amount <= old(
                self,
            ).maximum_outstanding_mata,
            r is Ok ==> *final(self) == (SystemState {
                total_outstanding_mata: (old(self).total_outstanding_mata + amount) as u64,
                ..*old(self)
            }),
            r is Err ==> *final(self) == *old(self) && r->Err_0 == LucraErrorCode::InvalidAmount,
    {
        if (self.total_outstanding_mata as u128) + (amount as u128)
            > self.maximum_outstanding_mata as u128 {
            Err(LucraErrorCode::InvalidAmount)
        } else {
            self.total_outstanding_mata = self.total_outstanding_mata + amount;
            Ok(())
        }
    }

    /// Account for burnt synthetic asset.
    pub fn remove_outstanding_mata(&mut self, amount: u64)
        ensures
            *final(self) == (SystemState {
                total_outstanding_mata: (if old(self).total_outstanding_mata >= amount {
                    old(self).total_outstanding_mata - amount
                } else {
                    0
                }) as u64,
                ..*old(self)
            }),
    {
        self.total_outstanding_mata = self.total_outstanding_mata.saturating_sub(amount);
    }

    /// Account for newly posted native-coin collateral.
    pub fn add_collateral(&mut self, lamports: u64)
        ensures
            *final(self) == (SystemState {
                total_sol_collateral: (if old(self).total_sol_collateral + lamports <= u64::MAX {
                    old(self).total_sol_collateral + lamports
                } else {
                    u64::MAX as int
                }) as u64,
                ..*old(self)
            }),
    {
        self.total_sol_collateral = self.total_sol_collateral.saturating_add(lamports);
    }

    /// Account for collateral returned or liquidated.
    pub fn remove_collateral(&mut self, lamports: u64)
        ensures
            *final(self) == (SystemState {
                total_sol_collateral: (if old(self).total_sol_collateral >= lamports {
                    old(self).total_sol_collateral - lamports
                } else {
                    0
                }) as u64,
                ..*old(self)
            }),
    {
        self.total_sol_collateral = self.total_sol_collateral.saturating_sub(lamports);
    }
}

} // verus!
