//! The outbound dispatch envelope and the split-phase dispatch outcome.
//!
//! The engine builds the envelope; the host submits it to the external relay
//! and then pays for gas, two separate operations of the relay's interface.
use vstd::prelude::*;

verus! {

use crate::bytes::bytes32_eq;
use crate::errors::SpokeError;
use crate::state::{InterchainGasPaymasterType, SpokeState};

/// Everything the host needs to submit one outbound message: the hub domain
/// to address, the recipient identity there, the amount the message reports,
/// the gas to pay for, and the message body itself.
#[derive(Clone, Debug)]
pub struct TransferRemote {
    /// The destination domain.
    pub destination_domain: u32,
    /// The remote recipient.
    pub recipient: [u8; 32],
    /// The amount the message reports, in canonical precision.
    pub amount_or_id: u64,
    /// Gas amount to pay the relay for.
    pub gas_amount: u64,
    /// The canonical message body.
    pub message_body: Vec<u8>,
}

/// The error the pre-dispatch account check rejects a lineup with, if any:
/// a dispatch authority that is not the one derived for this ledger, a gas
/// paymaster program other than the configured one, a configured paymaster
/// account other than the one the paymaster kind names, or a missing inner
/// paymaster account when the configured kind wraps one.
pub open spec fn spec_dispatch_accounts_err(
    state: SpokeState,
    dispatch_authority: Seq<u8>,
    expected_dispatch_authority: Seq<u8>,
    igp_program: Seq<u8>,
    configured_igp_account: Seq<u8>,
    inner_igp_present: bool,
) -> Option<SpokeError> {
    if dispatch_authority != expected_dispatch_authority {
        Some(SpokeError::InvalidArgument)
    } else if igp_program != state.igp@ {
        Some(SpokeError::InvalidAccount)
    } else if configured_igp_account != state.igp_type.spec_key()@ {
        Some(SpokeError::InvalidAccount)
    } else if state.igp_type is OverheadIgp && !inner_igp_present {
        Some(SpokeError::InvalidArgument)
    } else {
        None
    }
}

/// Checks the account lineup of an outbound dispatch against the ledger
/// configuration before anything is submitted: the relay's dispatch
/// authority must be the one the host derived for this ledger, and the gas
/// paymaster accounts must be the configured ones, with the inner paymaster
/// account present whenever the configured kind wraps one.
pub fn check_dispatch_accounts(
    state: &SpokeState,
    dispatch_authority: &[u8; 32],
    expected_dispatch_authority: &[u8; 32],
    igp_program: &[u8; 32],
    configured_igp_account: &[u8; 32],
    inner_igp_present: bool,
) -> (r: Result<(), SpokeError>)
    ensures
        match r {
            Ok(()) => spec_dispatch_accounts_err(
                *state,
                dispatch_authority@,
                expected_dispatch_authority@,
                igp_program@,
                configured_igp_account@,
                inner_igp_present,
            ) is None,
            Err(e) => Some(e) == spec_dispatch_accounts_err(
                *state,
                dispatch_authority@,
                expected_dispatch_authority@,
                igp_program@,
                configured_igp_account@,
                inner_igp_present,
            ),
        },
{
    if !bytes32_eq(dispatch_authority, expected_dispatch_authority) {
        return Err(SpokeError::InvalidArgument);
    }
    if !bytes32_eq(igp_program, &state.igp) {
        return Err(SpokeError::InvalidAccount);
    }
    if !bytes32_eq(configured_igp_account, state.igp_type.key()) {
        return Err(SpokeError::InvalidAccount);
    }
    let wraps_inner = match &state.igp_type {
        InterchainGasPaymasterType::Igp(_) => false,
        InterchainGasPaymasterType::OverheadIgp(_) => true,
    };
    if wraps_inner && !inner_igp_present {
        return Err(SpokeError::InvalidArgument);
    }
    Ok(())
}

/// Settles the split-phase outcome of one dispatch.  The relay accepts the
/// message and returns its identifier; the gas payment is a separate
/// operation that may still fail afterwards.  A failed gas payment must not
/// pass silently: it surfaces as a dispatch failure even though the relay
/// may already hold the message, so the enclosing ledger operation aborts.
pub fn finalize_dispatch(returned: Option<[u8; 32]>, gas_payment_ok: bool) -> (r: Result<
    [u8; 32],
    SpokeError,
>)
    ensures
        match r {
            Ok(id) => returned == Some(id) && gas_payment_ok,
            Err(e) => {
                ||| returned is None && e == SpokeError::InvalidArgument
                ||| returned is Some && !gas_payment_ok && e == SpokeError::InvalidOperation
            },
        },
{
    let message_id = match returned {
        Some(id) => id,
        None => {
            return Err(SpokeError::InvalidArgument);
        },
    };
    if !gas_payment_ok {
        return Err(SpokeError::InvalidOperation);
    }
    Ok(message_id)
}

} // verus!
