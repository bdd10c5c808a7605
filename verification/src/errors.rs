use vstd::prelude::*;

verus! {

/// The error taxonomy of the engine.
///
/// Every operation either commits in full or reports exactly one of these
/// kinds with no state change.
#[derive(Clone, Copy, Debug, PartialEq, Eq)]
pub enum CustomError {
    /// A non-positive amount was passed to `initialize` or `deposit`.
    InvalidAmount,
    /// The cooldown since the last withdrawal has not elapsed.
    WithdrawalLocked,
    /// Fewer than one full month accrued, or the computed payout is zero.
    InsufficientWithdrawal,
    /// The accrued reward is not covered by the pool's reward reserve
    /// (reserve-tiering strategy only).
    InsufficientPoolReserve,
    /// The external custody collaborator refused the paired transfer;
    /// reported verbatim by the host, never by the ledger logic itself.
    CustodyTransferFailed,
}

} // verus!
