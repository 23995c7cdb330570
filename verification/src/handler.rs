//! The inbound message handler: validates a relay-delivered message's
//! provenance, honours the pause flag, and dispatches to settlement
//! application or to a configuration update.
use vstd::prelude::*;

verus! {

use crate::bytes::{bytes32_eq, read_bytes32};
use crate::errors::SpokeError;
use crate::events::{MessageReceivedEvent, SettledEvent};
use crate::messages::{HandleInstruction, HyperlaneMessages, MessageType};
use crate::settlement::{
    spec_batch_count, spec_batch_entries, spec_batch_payouts, spec_batch_wf, spec_records_of,
    spec_settlement_at, handle_batch_settlement, SettlementView, Settlements,
    SETTLEMENT_BATCH_HEADER_BYTES, SETTLEMENT_RECORD_BYTES,
};
use crate::state::SpokeState;

/// Which configuration field a variable-update identifier names.
#[derive(Clone, Copy, Debug, PartialEq, Eq, Structural)]
pub enum VarTarget {
    Gateway,
    Mailbox,
    Lighthouse,
    Watchtower,
}

/// A variable-update identifier: 32 copies of the target's wire byte.
pub open spec fn spec_var_id(tag: u8) -> Seq<u8> {
    Seq::new(32, |i: int| tag)
}

/// The wire byte whose 32-fold repetition identifies each target.
pub open spec fn spec_var_tag(t: VarTarget) -> u8 {
    match t {
        VarTarget::Gateway => 1,
        VarTarget::Mailbox => 2,
        VarTarget::Lighthouse => 3,
        VarTarget::Watchtower => 4,
    }
}

/// Returns the identifier naming `t` in a configuration update.
pub fn var_update_id(t: VarTarget) -> (r: [u8; 32])
    ensures
        r@ == spec_var_id(spec_var_tag(t)),
{
    let tag: u8 = match t {
        VarTarget::Gateway => 1,
        VarTarget::Mailbox => 2,
        VarTarget::Lighthouse => 3,
        VarTarget::Watchtower => 4,
    };
    let r = [tag; 32];
    proof {
        assert(r@ =~= spec_var_id(tag));
    }
    r
}

/// The configuration field a 32-byte identifier names, if any.
pub open spec fn spec_var_target(id: Seq<u8>) -> Option<VarTarget> {
    if id == spec_var_id(spec_var_tag(VarTarget::Gateway)) {
        Some(VarTarget::Gateway)
    } else if id == spec_var_id(spec_var_tag(VarTarget::Mailbox)) {
        Some(VarTarget::Mailbox)
    } else if id == spec_var_id(spec_var_tag(VarTarget::Lighthouse)) {
        Some(VarTarget::Lighthouse)
    } else if id == spec_var_id(spec_var_tag(VarTarget::Watchtower)) {
        Some(VarTarget::Watchtower)
    } else {
        None
    }
}

/// Whether the pause flag blocks a message of type `t`: configuration
/// updates may be let through while paused, by configuration choice, so that
/// the ledger can be recovered.
pub open spec fn spec_pause_blocked(state: SpokeState, t: MessageType) -> bool {
    state.paused && !(t == MessageType::VarUpdate && state.allow_var_update_when_paused)
}

/// The settlement records spelled out in a settlement payload.
pub open spec fn spec_batch_records(rest: Seq<u8>) -> Seq<SettlementView> {
    Seq::new(
        spec_batch_count(rest),
        |i: int| spec_settlement_at(rest, SETTLEMENT_BATCH_HEADER_BYTES + SETTLEMENT_RECORD_BYTES * i),
    )
}

/// The error an inbound message is rejected with, if any: wrong origin, then
/// wrong sender, then an unreadable or unknown message, then the pause flag,
/// then the per-type payload checks.  Settlement-record failures are not
/// message errors; each record is isolated.
pub open spec fn spec_handle_message_err(
    state: SpokeState,
    origin: u32,
    sender: Seq<u8>,
    msg: Seq<u8>,
    n_decimals: nat,
) -> Option<SpokeError> {
    if origin != state.everclear {
        Some(SpokeError::InvalidOrigin)
    } else if sender != state.gateway@ {
        Some(SpokeError::InvalidSender)
    } else if msg.len() < 32 || MessageType::from_byte_spec(msg[31]) is Err {
        Some(SpokeError::InvalidMessage)
    } else {
        let t = MessageType::from_byte_spec(msg[31])->Ok_0;
        if spec_pause_blocked(state, t) {
            Some(SpokeError::ContractPaused)
        } else {
            match t {
                MessageType::Settlement => {
                    let rest = msg.skip(32);
                    if !spec_batch_wf(rest) {
                        Some(SpokeError::InvalidMessage)
                    } else if n_decimals != spec_batch_count(rest) {
                        Some(SpokeError::InvalidAccount)
                    } else {
                        None
                    }
                },
                MessageType::VarUpdate => {
                    let rest = msg.skip(32);
                    if rest.len() < 64 {
                        Some(SpokeError::InvalidMessage)
                    } else if spec_var_target(rest.subrange(0, 32)) is None {
                        Some(SpokeError::InvalidVarUpdate)
                    } else {
                        None
                    }
                },
                _ => Some(SpokeError::InvalidMessage),
            }
        }
    }
}

/// What a message handed to the handler produced: the receipt event that is
/// emitted unconditionally on success, and the payouts the host must perform.
pub struct HandleOutcome {
    pub received: MessageReceivedEvent,
    pub settled: Vec<SettledEvent>,
}

/// Validates and applies one inbound message.
///
/// Settlement messages apply their records in array order, each record
/// isolated; `decimals[i]` must carry the local precision of record `i`'s
/// asset.  Configuration updates rewrite the named identity.  On success the
/// receipt event carries the message's origin and sender, even if every
/// settlement record was a no-op.
pub fn handle_message(
    state: &mut SpokeState,
    instruction: &HandleInstruction,
    decimals: &Vec<u8>,
) -> (r: Result<HandleOutcome, SpokeError>)
    ensures
        spec_handled(*old(state), *final(state), instruction, decimals@, &r),
{
    if instruction.origin != state.everclear {
        return Err(SpokeError::InvalidOrigin);
    }
    if !bytes32_eq(&instruction.sender, &state.gateway) {
        return Err(SpokeError::InvalidSender);
    }
    let msg = match HyperlaneMessages::parse(instruction.message.as_slice()) {
        Ok(m) => m,
        Err(e) => {
            return Err(e);
        },
    };
    let blocked = if state.paused {
        match msg.message_type {
            MessageType::VarUpdate => !state.allow_var_update_when_paused,
            _ => true,
        }
    } else {
        false
    };
    if blocked {
        return Err(SpokeError::ContractPaused);
    }
    let settled: Vec<SettledEvent> = match msg.message_type {
        MessageType::Settlement => {
            let batch = match Settlements::parse(msg.rest.as_slice()) {
                Ok(b) => b,
                Err(e) => {
                    return Err(e);
                },
            };
            let events = match handle_batch_settlement(state, &batch, decimals) {
                Ok(evs) => evs,
                Err(e) => {
                    return Err(e);
                },
            };
            proof {
                let rest = instruction.message@.skip(32);
                assert(spec_records_of(batch.settlements@) =~= spec_batch_records(rest));
            }
            events
        },
        MessageType::VarUpdate => {
            if msg.rest.len() < 64 {
                return Err(SpokeError::InvalidMessage);
            }
            let var_id = read_bytes32(msg.rest.as_slice(), 0);
            let value = read_bytes32(msg.rest.as_slice(), 32);
            let gateway_id = var_update_id(VarTarget::Gateway);
            let mailbox_id = var_update_id(VarTarget::Mailbox);
            let lighthouse_id = var_update_id(VarTarget::Lighthouse);
            let watchtower_id = var_update_id(VarTarget::Watchtower);
            if bytes32_eq(&var_id, &gateway_id) {
                state.gateway = value;
            } else if bytes32_eq(&var_id, &mailbox_id) {
                state.mailbox = value;
            } else if bytes32_eq(&var_id, &lighthouse_id) {
                state.lighthouse = value;
            } else if bytes32_eq(&var_id, &watchtower_id) {
                state.watchtower = value;
            } else {
                return Err(SpokeError::InvalidVarUpdate);
            }
            Vec::new()
        },
        _ => {
            return Err(SpokeError::InvalidMessage);
        },
    };
    Ok(
        HandleOutcome {
            received: MessageReceivedEvent { origin: instruction.origin, sender: instruction.sender },
            settled,
        },
    )
}

/// Entry point for messages delivered by the relay.  The caller passes the
/// identity that signed the delivery and the process authority the relay is
/// expected to use; a mismatch is rejected before the message is read.
pub fn handle(
    state: &mut SpokeState,
    authority: &[u8; 32],
    process_authority: &[u8; 32],
    instruction: &HandleInstruction,
    decimals: &Vec<u8>,
) -> (r: Result<HandleOutcome, SpokeError>)
    ensures
        authority@ != process_authority@ ==> r == Err::<HandleOutcome, SpokeError>(
            SpokeError::InvalidSender,
        ) && *final(state) == *old(state),
        authority@ == process_authority@ ==> spec_handled(
            *old(state),
            *final(state),
            instruction,
            decimals@,
            &r,
        ),
{
    if !bytes32_eq(authority, process_authority) {
        return Err(SpokeError::InvalidSender);
    }
    handle_message(state, instruction, decimals)
}

/// Entry point for the owner delivering a message by hand: the same handler,
/// gated on the owner identity instead of the relay's process authority.
pub fn handle_as_admin(
    state: &mut SpokeState,
    authority: &[u8; 32],
    instruction: &HandleInstruction,
    decimals: &Vec<u8>,
) -> (r: Result<HandleOutcome, SpokeError>)
    ensures
        authority@ != old(state).owner@ ==> r == Err::<HandleOutcome, SpokeError>(
            SpokeError::InvalidSender,
        ) && *final(state) == *old(state),
        authority@ == old(state).owner@ ==> spec_handled(
            *old(state),
            *final(state),
            instruction,
            decimals@,
            &r,
        ),
{
    if !bytes32_eq(authority, &state.owner) {
        return Err(SpokeError::InvalidSender);
    }
    handle_message(state, instruction, decimals)
}

/// What [`handle_message`] guarantees, packaged so that the two entry points
/// can restate it: the error cases leave the state unchanged and are named
/// exactly, and the success cases apply the settlement batch or the
/// configuration update.
pub open spec fn spec_handled(
    pre: SpokeState,
    post: SpokeState,
    instruction: &HandleInstruction,
    decimals: Seq<u8>,
    r: &Result<HandleOutcome, SpokeError>,
) -> bool {
    match r {
        Err(e) => post == pre && Some(*e) == spec_handle_message_err(
            pre,
            instruction.origin,
            instruction.sender@,
            instruction.message@,
            decimals.len(),
        ),
        Ok(out) => {
            &&& spec_handle_message_err(
                pre,
                instruction.origin,
                instruction.sender@,
                instruction.message@,
                decimals.len(),
            ) is None
            &&& out.received.origin == instruction.origin
            &&& out.received.sender == instruction.sender
            &&& ({
                let t = MessageType::from_byte_spec(instruction.message@[31])->Ok_0;
                match t {
                    MessageType::Settlement => {
                        let rest = instruction.message@.skip(32);
                        &&& pre.eq_except_status(post)
                        &&& post.status@ == spec_batch_entries(
                            pre.status@,
                            spec_batch_records(rest),
                            decimals,
                        )
                        &&& out.settled@.map_values(|e: SettledEvent| e@) == spec_batch_payouts(
                            pre.status@,
                            spec_batch_records(rest),
                            decimals,
                        )
                    },
                    MessageType::VarUpdate => {
                        let rest = instruction.message@.skip(32);
                        let value = rest.subrange(32, 64);
                        &&& pre.eq_except_config_targets(post)
                        &&& out.settled@.len() == 0
                        &&& match spec_var_target(rest.subrange(0, 32)) {
                            Some(VarTarget::Gateway) => post.gateway@ == value && post.mailbox
                                == pre.mailbox && post.lighthouse == pre.lighthouse
                                && post.watchtower == pre.watchtower,
                            Some(VarTarget::Mailbox) => post.mailbox@ == value && post.gateway
                                == pre.gateway && post.lighthouse == pre.lighthouse
                                && post.watchtower == pre.watchtower,
                            Some(VarTarget::Lighthouse) => post.lighthouse@ == value && post.gateway
                                == pre.gateway && post.mailbox == pre.mailbox && post.watchtower
                                == pre.watchtower,
                            Some(VarTarget::Watchtower) => post.watchtower@ == value && post.gateway
                                == pre.gateway && post.mailbox == pre.mailbox && post.lighthouse
                                == pre.lighthouse,
                            None => false,
                        }
                    },
                    _ => false,
                }
            })
        },
    }
}

} // verus!
