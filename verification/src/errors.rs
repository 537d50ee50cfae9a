//! Error kinds of the presale core, and how transfer-service failures are
//! surfaced.

use vstd::prelude::*;

verus! {

/// Why a purchase attempt was refused.  Every failure is terminal for the
/// attempt and leaves the round and the purchase record unchanged.
#[derive(Clone, Copy, Debug, PartialEq, Eq, Structural)]
pub enum PurchaseError {
    /// The system has not been activated yet.
    NotInitialized,
    /// The current time is outside the round's sale window.
    SaleWindowClosed,
    /// The buyer's available collateral balance is below the deposit.
    InsufficientCollateralBalance,
    /// The deposit is too small relative to the price: it buys zero tokens.
    AmountTooSmall,
    /// The round's remaining supply does not cover the purchase.
    InsufficientSupply,
    /// A checked arithmetic step would have overflowed.
    ArithmeticOverflow,
    /// Surfaced verbatim from the transfer service: a leg lacked balance.
    InsufficientBalance,
    /// Surfaced verbatim from the transfer service: a leg was not authorized.
    Unauthorized,
}

/// How the external ledger-transfer service can fail.  Any such failure
/// aborts the whole purchase before any bookkeeping mutation.
#[derive(Clone, Copy, Debug, PartialEq, Eq, Structural)]
pub enum TransferError {
    InsufficientBalance,
    Unauthorized,
}

/// The purchase error that a transfer-service failure surfaces as.
pub open spec fn spec_transfer_failure_error(e: TransferError) -> PurchaseError {
    match e {
        TransferError::InsufficientBalance => PurchaseError::InsufficientBalance,
        TransferError::Unauthorized => PurchaseError::Unauthorized,
    }
}

/// Maps a transfer-service failure to the purchase error surfaced verbatim
/// to the caller.
pub fn transfer_failure_error(e: TransferError) -> (r: PurchaseError)
    ensures
        r == spec_transfer_failure_error(e),
{
    match e {
        TransferError::InsufficientBalance => PurchaseError::InsufficientBalance,
        TransferError::Unauthorized => PurchaseError::Unauthorized,
    }
}

} // verus!
