//! The facility's public request vocabulary: one variant per externally
//! callable operation, each carrying its plain-value payload. Decoding a
//! wire request into this enum and gathering the records it names is host
//! plumbing; the library only defines what each request means.

use vstd::prelude::*;

verus! {

/// One externally callable operation with its arguments.
#[derive(Clone, Debug, PartialEq, Eq, Structural)]
pub enum Instruction {
    /// One-time bootstrap of the global records.
    Initialize {
        min_deposit: u64,
        collateral_requirement: u32,
        epoch: i64,
        loans_enabled: bool,
        staking_enabled: bool,
        arbitrage_enabled: bool,
        peg_check_enabled: bool,
        max_amount_of_lucra_to_mint: u64,
        daily_arb_limit: u64,
        maximum_outstanding_mata: u64,
        lcp: u8,
    },
    /// Governance update of the configurable fields.
    UpdateState {
        min_deposit: u64,
        collateral_requirement: u32,
        loans_enabled: bool,
        staking_enabled: bool,
        arbitrage_enabled: bool,
        peg_check_enabled: bool,
        max_amount_of_lucra_to_mint: u64,
        daily_arb_limit: u64,
        maximum_outstanding_mata: u64,
        minimum_harvest_amount: u64,
        reward_fee: u32,
        lcp: u8,
    },
    /// Originate a loan against a native-coin deposit.
    CreateMataLoan { lamports: u64 },
    /// Burn the debt and return the remaining collateral.
    CloseOutMataLoan { unstake_msol: bool },
    /// Create a staking account.
    CreateStakingAccount {},
    /// Create a stake balance account.
    CreateStakeBalance { nonce: u8, staking_timeframe: u8 },
    /// Deposit governance tokens toward staking.
    DepositStake { lucra: u64 },
    /// Stake deposited governance tokens.
    Stake { lucra: u64 },
    /// Begin unstaking locked governance stake.
    StartUnstake { lucra: u64 },
    /// Finish a pending unstake.
    EndUnstake {},
    /// Withdraw deposited governance tokens.
    WithdrawStake { lucra: u64 },
    /// Claim a staking reward portion.
    ClaimReward {},
    /// Publish a staking reward on chain.
    DropReward {},
    /// Governance transfer out of a facility vault.
    TransferFunds { lamports: u64 },
    /// One-time price-history ledger initialization.
    CreatePriceHistory {},
    /// Record one oracle sample into the price-history ledger.
    UpdatePriceHistory {},
    /// Redeem reward tokens for governance tokens.
    RedeemRewardTokens { reward_tokens: u64 },
    /// Post further collateral to an open loan.
    AddCollateral { lamports: u64 },
    /// Accrue the penalty owed on a loan.
    DeterminePenalty {},
    /// Liquidate the accrued penalty through the tagged venue.
    HarvestPenalty { amm_type: u8 },
    /// Sell arbitrage funds.
    SellFundsForArb { fund_source: u8, amm_type: u8, lamports: u64 },
    /// Buy and burn with the proceeds of an arbitrage sale.
    BuyBurnForArb { fund_source: u8, amm_type: u8, lamports: u64 },
    /// Sweep arbitrage holdings back into the coffer.
    CleanUpArb {},
    /// Mint the funds that start an arbitrage round.
    MintFundsForArb { fund_source: u8, amm_type: u8, lamports: u64 },
}

} // verus!
