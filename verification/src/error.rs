//! Error taxonomy of the credit facility. Every fallible step surfaces a
//! specific `LucraErrorCode`; a failed check aborts the whole invocation with
//! no state change (the host runtime discards partial mutations). The
//! `(source file, line)` pair carried by `LucraError` is a debugging aid for
//! postmortem diagnosis, not behavior.

use vstd::prelude::*;

verus! {

/// Component tag naming the module a tagged error was raised from.
#[derive(Clone, Copy, Debug, PartialEq, Eq, Structural)]
pub enum SourceFileId {
    Account,
    AddCollateral,
    ArbState,
    BeginCreateMataLoan,
    BuyBurnForArb,
    ClaimReward,
    CleanUpArb,
    CloseMataLoan,
    CreateOracle,
    CreatePriceHistory,
    CreateStakingAccount,
    CreateStakeBalance,
    CofferArb,
    Decimal,
    DepositStake,
    DeterminePenalty,
    DropReward,
    EndUnstake,
    HarvestPenalty,
    Initialize,
    Loans,
    LucraMataArb,
    MataLucraArb,
    Math,
    MintFundsForArb,
    Oracle,
    OracleHelper,
    PendingFunds,
    PendingWithdrawal,
    PriceHistory,
    Rate,
    Raydium,
    RedeemRewardTokens,
    Reward,
    SellFundsForArb,
    Spl,
    SplTokenSwap,
    Stake,
    StakeBalance,
    Staking,
    StakingState,
    StartUnstake,
    SystemState,
    TransferFunds,
    UpdatePrice,
    UpdatePriceHistory,
    UpdateState,
    WithdrawStake,
}

/// Kind of a failed precondition or computation.
#[derive(Clone, Copy, Debug, PartialEq, Eq, Structural)]
pub enum LucraErrorCode {
    InvalidAmount,
    InvalidAccountOwner,
    InvalidAccountInput,
    NotRentExempt,
    Timelock,
    InvalidNonce,
    OutstandingLoans,
    AlreadyProcessed,
    NotStakedDuringDrop,
    InsufficientTimePassed,
    CalculationFailure,
    MathError,
    EarlyRewardDrop,
    AccountNotMutable,
    AccountNotSigner,
    StakingAccountNotUnlocked,
    ArbitrageNotEnabled,
    StakingNotEnabled,
    LoansNotEnabled,
    InvalidLoanType,
    RewardsOutstanding,
    InvalidOracleConfig,
    ClaimOutOfOrder,
    OracleStatusNotValid,
    OracleStale,
    PriceDataInvalid,
    PriceAlreadyUpdatedForSlot,
    BrokenPeg,
    PegNotBroken,
    NoPenaltyToHarvest,
    EmptyPool,
    TransactionFailed,
    NotImplemented,
    InvalidStateTransition,
    InvalidState,
    Default,
}

/// An error code together with the place that raised it.
#[derive(Clone, Copy, Debug, PartialEq, Eq, Structural)]
pub struct LucraError {
    pub lucra_error_code: LucraErrorCode,
    pub line: u32,
    pub source_file_id: SourceFileId,
}

pub type LucraResult<T> = Result<T, LucraError>;

/// Returns `Ok(())` when `cond` holds, else the tagged error.
pub fn check_assert(
    cond: bool,
    lucra_error_code: LucraErrorCode,
    line: u32,
    source_file_id: SourceFileId,
) -> (r: LucraResult<()>)
    ensures
        r is Ok <==> cond,
        r is Err ==> r->Err_0 == (LucraError { lucra_error_code, line, source_file_id }),
{
    if cond {
        Ok(())
    } else {
        Err(LucraError { lucra_error_code, line, source_file_id })
    }
}

} // verus!
