//! Error surface of the spoke engine.  Every operation returns one of these
//! kinds; nothing is retried internally.
use vstd::prelude::*;

verus! {

/// Errors returned by the ledger operations and the inbound handler.
#[derive(Clone, Copy, Debug, PartialEq, Eq, Structural)]
pub enum SpokeError {
    /// Only the contract owner can call this method.
    OnlyOwner,
    /// Not authorized to pause.
    NotAuthorizedToPause,
    /// Contract is paused.
    ContractPaused,
    /// Invalid amount provided.
    InvalidAmount,
    /// Invalid operation or overflow.
    InvalidOperation,
    /// Intent not found.
    IntentNotFound,
    /// Intent is in an invalid status for this operation.
    InvalidIntentStatus,
    /// Max fee exceeded.
    MaxFeeExceeded,
    /// Queue operation invalid (mismatching head or too many items).
    InvalidQueueOperation,
    /// Invalid origin for an inbound message.
    InvalidOrigin,
    /// Invalid sender for an inbound message.
    InvalidSender,
    /// Invalid or unknown message.
    InvalidMessage,
    /// Unauthorized operation.
    Unauthorized,
    /// Zero amount provided.
    ZeroAmount,
    /// Decimal conversion overflow.
    DecimalConversionOverflow,
    /// Already initialized.
    AlreadyInitialized,
    /// Invalid owner.
    InvalidOwner,
    /// Invalid var update.
    InvalidVarUpdate,
    /// Invalid intent.
    InvalidIntent,
    /// Arithmetic overflow.
    Overflow,
    /// Invalid account meta.
    InvalidAccount,
    /// Invalid argument data.
    InvalidArgument,
}

} // verus!
