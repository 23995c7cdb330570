//! Intent creation: the user-facing entry point of the ledger.
//!
//! The host debits the caller's input asset and performs the relay dispatch;
//! this operation validates the request, issues the nonce, computes the
//! canonical identity, records and enqueues it, and hands back the outbound
//! envelope.
use vstd::prelude::*;

verus! {

use crate::bytes::{be_bytes_of, bytes32_eq, u64_to_u256_be, zero_bytes};
use crate::dispatch::TransferRemote;
use crate::errors::SpokeError;
use crate::events::IntentAddedEvent;
use crate::hashing::{compute_intent_hash, spec_intent_hash};
use crate::intent::{
    encode_full, spec_encode_full, EVMIntent, IntentView, MAX_INTENT_DESTINATIONS,
};
use crate::messages::MessageType;
use crate::normalize::{normalize_decimals, normalize_spec};
use crate::state::{IntentStatus, IntentStatusAccount, SpokeState};
use crate::DEFAULT_NORMALIZED_DECIMALS;

/// The all-zero identity, standing for an unset asset or account.
pub open spec fn spec_zero_id() -> Seq<u8> {
    zero_bytes(32)
}

/// Returns the all-zero identity.
pub fn zero_id() -> (r: [u8; 32])
    ensures
        r@ == spec_zero_id(),
{
    let r = [0u8; 32];
    proof {
        assert(r@ =~= spec_zero_id());
    }
    r
}

/// The error `new_intent` rejects a request with, if any, in check order:
/// the pause flag, the destination count, the ttl/output-asset invariant,
/// the fee bound, the decimal conversion, the zero-amount rule, and finally
/// the nonce and queue counters.
pub open spec fn spec_new_intent_err(
    state: SpokeState,
    output_asset: Seq<u8>,
    amount: u64,
    max_fee: u32,
    ttl: u64,
    destinations: Seq<u32>,
    minted_decimals: u8,
) -> Option<SpokeError> {
    if state.paused {
        Some(SpokeError::ContractPaused)
    } else if destinations.len() == 0 {
        Some(SpokeError::InvalidOperation)
    } else if destinations.len() > MAX_INTENT_DESTINATIONS {
        Some(SpokeError::InvalidIntent)
    } else if destinations.len() == 1 && ttl != 0 && output_asset == spec_zero_id() {
        Some(SpokeError::InvalidIntent)
    } else if destinations.len() > 1 && !(ttl == 0 && output_asset == spec_zero_id()) {
        Some(SpokeError::InvalidIntent)
    } else if max_fee > crate::DBPS_DENOMINATOR {
        Some(SpokeError::MaxFeeExceeded)
    } else {
        match normalize_spec(amount, minted_decimals, DEFAULT_NORMALIZED_DECIMALS) {
            Err(e) => Some(e),
            Ok(normalized) => {
                if normalized == 0 {
                    Some(SpokeError::ZeroAmount)
                } else if state.nonce == u64::MAX || state.intent_queue.last_index == u64::MAX {
                    Some(SpokeError::InvalidOperation)
                } else {
                    None
                }
            },
        }
    }
}

/// The intent record a successful request creates: the caller's identities,
/// this ledger's domain, the next nonce, and the amount normalized into a
/// 32-byte canonical word.
pub open spec fn spec_new_intent_view(
    state: SpokeState,
    initiator: Seq<u8>,
    receiver: Seq<u8>,
    input_asset: Seq<u8>,
    output_asset: Seq<u8>,
    normalized: u64,
    max_fee: u32,
    ttl: u64,
    timestamp: u64,
    destinations: Seq<u32>,
    data: Seq<u8>,
) -> IntentView {
    IntentView {
        initiator,
        receiver,
        input_asset,
        output_asset,
        max_fee,
        origin: state.domain,
        nonce: (state.nonce + 1) as u64,
        timestamp,
        ttl,
        amount: be_bytes_of(normalized as nat, 32),
        destinations,
        data,
    }
}

/// What one intent creation hands back to the host: the intent's global
/// identity, the record itself, the outbound envelope to dispatch, and the
/// event to emit.
pub struct NewIntentOutcome {
    pub intent_id: [u8; 32],
    pub intent: EVMIntent,
    pub transfer: TransferRemote,
    pub event: IntentAddedEvent,
}

/// Copies a vector of domain ids.
fn copy_u32_vec(v: &Vec<u32>) -> (r: Vec<u32>)
    ensures
        r@ == v@,
{
    let mut r: Vec<u32> = Vec::new();
    let n: usize = v.len();
    let mut i: usize = 0;
    while i < n
        invariant
            i <= n,
            n == v@.len(),
            r@ == v@.take(i as int),
        decreases n - i,
    {
        r.push(v[i]);
        proof {
            assert(v@.take(i + 1) == v@.take(i as int).push(v@[i as int]));
        }
        i += 1;
    }
    proof {
        assert(v@.take(n as int) =~= v@);
    }
    r
}

/// Copies a byte vector.
fn copy_u8_vec(v: &Vec<u8>) -> (r: Vec<u8>)
    ensures
        r@ == v@,
{
    let mut r: Vec<u8> = Vec::new();
    crate::bytes::append_bytes(&mut r, v.as_slice());
    proof {
        assert(r@ =~= v@);
    }
    r
}

/// Creates a new intent.
///
/// Validates the intent invariants, normalizes the amount to canonical
/// precision, issues the next nonce, records the intent as `Added`, enqueues
/// its identity, and returns the canonical outbound envelope.  The host
/// debits the caller's input asset and submits the envelope; if that
/// dispatch fails the host aborts the whole operation, so the state change
/// here commits only together with the dispatch.
pub fn new_intent(
    state: &mut SpokeState,
    initiator: [u8; 32],
    receiver: [u8; 32],
    input_asset: [u8; 32],
    output_asset: [u8; 32],
    amount: u64,
    max_fee: u32,
    ttl: u64,
    destinations: Vec<u32>,
    data: Vec<u8>,
    message_gas_limit: u64,
    minted_decimals: u8,
    timestamp: u64,
) -> (r: Result<NewIntentOutcome, SpokeError>)
    requires
        old(state).wf(),
    ensures
        final(state).wf(),
        match r {
            Err(e) => *final(state) == *old(state) && Some(e) == spec_new_intent_err(
                *old(state),
                output_asset@,
                amount,
                max_fee,
                ttl,
                destinations@,
                minted_decimals,
            ),
            Ok(out) => {
                let normalized = normalize_spec(
                    amount,
                    minted_decimals,
                    DEFAULT_NORMALIZED_DECIMALS,
                )->Ok_0;
                let iv = spec_new_intent_view(
                    *old(state),
                    initiator@,
                    receiver@,
                    input_asset@,
                    output_asset@,
                    normalized,
                    max_fee,
                    ttl,
                    timestamp,
                    destinations@,
                    data@,
                );
                &&& spec_new_intent_err(
                    *old(state),
                    output_asset@,
                    amount,
                    max_fee,
                    ttl,
                    destinations@,
                    minted_decimals,
                ) is None
                &&& out.intent@ == iv
                &&& out.intent_id@ == spec_intent_hash(iv)
                &&& old(state).eq_except_intent_creation(*final(state))
                &&& final(state).nonce == old(state).nonce + 1
                &&& final(state).status@ == old(state).status@.push(
                    IntentStatusAccount { key: out.intent_id, status: IntentStatus::Added },
                )
                &&& final(state).intent_queue.items@ == old(state).intent_queue.items@.push(
                    out.intent_id,
                )
                &&& final(state).intent_queue.first_index == old(state).intent_queue.first_index
                &&& final(state).intent_queue.last_index == old(state).intent_queue.last_index + 1
                &&& out.transfer.destination_domain == old(state).everclear
                &&& out.transfer.recipient == old(state).gateway
                &&& out.transfer.amount_or_id == normalized
                &&& out.transfer.gas_amount == message_gas_limit
                &&& out.transfer.message_body@ == spec_encode_full(
                    MessageType::Intent.as_byte_spec(),
                    iv,
                )
                &&& out.event.intent_id == out.intent_id
                &&& out.event.initiator == initiator
                &&& out.event.receiver == receiver
                &&& out.event.input_asset == input_asset
                &&& out.event.output_asset == output_asset
                &&& out.event.normalized_amount == normalized
                &&& out.event.max_fee == max_fee
                &&& out.event.origin_domain == old(state).domain
                &&& out.event.ttl == ttl
                &&& out.event.timestamp == timestamp
                &&& out.event.destinations@ == destinations@
                &&& out.event.data@ == data@
            },
        },
{
    if state.paused {
        return Err(SpokeError::ContractPaused);
    }
    if destinations.len() == 0 {
        return Err(SpokeError::InvalidOperation);
    }
    if destinations.len() > MAX_INTENT_DESTINATIONS {
        return Err(SpokeError::InvalidIntent);
    }
    let zero = zero_id();
    let output_is_zero = bytes32_eq(&output_asset, &zero);
    if destinations.len() == 1 {
        if ttl != 0 && output_is_zero {
            return Err(SpokeError::InvalidIntent);
        }
    } else {
        if !(ttl == 0 && output_is_zero) {
            return Err(SpokeError::InvalidIntent);
        }
    }
    if max_fee > crate::DBPS_DENOMINATOR {
        return Err(SpokeError::MaxFeeExceeded);
    }
    let normalized = match normalize_decimals(amount, minted_decimals, DEFAULT_NORMALIZED_DECIMALS) {
        Ok(a) => a,
        Err(e) => {
            return Err(e);
        },
    };
    if normalized == 0 {
        return Err(SpokeError::ZeroAmount);
    }
    if state.nonce == u64::MAX || state.intent_queue.last_index == u64::MAX {
        return Err(SpokeError::InvalidOperation);
    }
    let new_nonce = state.nonce + 1;

    let intent = EVMIntent {
        initiator,
        receiver,
        input_asset,
        output_asset,
        max_fee,
        origin: state.domain,
        nonce: new_nonce,
        timestamp,
        ttl,
        amount: u64_to_u256_be(normalized),
        destinations,
        data,
    };
    let intent_id = compute_intent_hash(&intent);
    let message_body = encode_full(MessageType::Intent, &intent);

    state.nonce = new_nonce;
    state.status.push(IntentStatusAccount { key: intent_id, status: IntentStatus::Added });
    match state.intent_queue.push_back(intent_id) {
        Ok(()) => {},
        Err(e) => {
            proof {
                assert(false);
            }
            return Err(e);
        },
    }

    let event = IntentAddedEvent {
        intent_id,
        initiator,
        receiver,
        input_asset,
        output_asset,
        normalized_amount: normalized,
        max_fee,
        origin_domain: state.domain,
        ttl,
        timestamp,
        destinations: copy_u32_vec(&intent.destinations),
        data: copy_u8_vec(&intent.data),
    };
    let transfer = TransferRemote {
        destination_domain: state.everclear,
        recipient: state.gateway,
        amount_or_id: normalized,
        gas_amount: message_gas_limit,
        message_body,
    };
    Ok(NewIntentOutcome { intent_id, intent, transfer, event })
}

} // verus!
