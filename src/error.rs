use vstd::prelude::*;

verus! {

/// Why a wallet operation was rejected. A rejected operation changes nothing.
#[derive(Clone, Copy, Debug, PartialEq, Eq, Structural)]
pub enum ErrorCode {
    /// The operator is already delegated on this wallet.
    OperatorAlreadyExists,
    /// The caller is not the wallet's owner.
    NotAuthorized,
    /// The amount is above the per-intent limit.
    ExceedsSpendingLimit,
    /// The amount would take the window's spend above the daily limit.
    ExceedsDailyLimit,
    /// The intent has been executed before.
    AlreadyExecuted,
    /// The intent's execution window has passed.
    IntentExpired,
    /// The operator set is full.
    TooManyOperators,
    /// No program address could be derived for the seeds.
    AddressUnavailable,
    /// The transfer of funds did not complete.
    TransferFailed,
}

} // verus!
