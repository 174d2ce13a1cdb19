use vstd::prelude::*;

verus! {

/// Failure reported by the external ledger when it refuses a transfer.
#[derive(Clone, Copy, Debug, PartialEq, Eq, Structural)]
pub enum LedgerError {
    /// The source holds less than the amount to move.
    InsufficientBalance,
    /// The destination balance would overflow.
    BalanceOverflow,
    /// The ledger refused the transfer for a reason of its own.
    Rejected,
}

/// Every way an engine operation can be rejected. A rejected operation leaves the
/// record as it was.
#[derive(Clone, Copy, Debug, PartialEq, Eq, Structural)]
pub enum ErrorCode {
    /// The operation is not allowed in the record's current stage.
    InvalidStage,
    /// The amount exceeds the custodied balance.
    InsufficientFunds,
    /// The caller does not hold the role the operation requires.
    Unauthorized,
    /// A zero amount, an amount whose total would overflow, or a fee above 100%.
    InvalidAmount,
    /// A record already exists for the same owner and asset.
    DuplicateRecord,
    /// The record has already been settled.
    AlreadySettled,
    /// A stored stage code that names no stage.
    UnknownStage(u8),
    /// The ledger refused one of the transfers of the operation.
    LedgerTransferFailed(LedgerError),
}

/// The error an operation reports when the ledger refuses one of its transfers:
/// a payer who lacks the balance is short of funds; any other refusal is
/// reported as a failed transfer that wraps the ledger's reason.
pub open spec fn ledger_error(e: LedgerError) -> ErrorCode {
    match e {
        LedgerError::InsufficientBalance => ErrorCode::InsufficientFunds,
        _ => ErrorCode::LedgerTransferFailed(e),
    }
}

/// Maps a refusal of the ledger to the operation's error.
pub fn from_ledger(e: LedgerError) -> (r: ErrorCode)
    ensures
        r == ledger_error(e),
{
    match e {
        LedgerError::InsufficientBalance => ErrorCode::InsufficientFunds,
        _ => ErrorCode::LedgerTransferFailed(e),
    }
}

} // verus!
