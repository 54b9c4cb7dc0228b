//! Core of an on-chain credit facility: loan lifecycle and penalty accrual,
//! together with the bounded price-history ledger that feeds the accrual
//! algorithm and the oracle price derivation layer that feeds the ledger.
//!
//! All chargeable computation is exact decimal fixed-point arithmetic over
//! integers; rounding (floor) happens only at the final step a caller
//! consumes, never mid-chain. Token movement, liquid-staking conversion and
//! exchange execution are external collaborators: the functions here take
//! their results as plain values and decide what must happen to the records.

pub mod codec;
pub mod error;
pub mod history;
pub mod instruction;
pub mod laws;
pub mod lifecycle;
pub mod loan;
pub mod oracle;
pub mod penalty;
pub mod price;
pub mod rates;
pub mod system;
