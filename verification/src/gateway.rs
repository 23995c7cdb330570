//! The gateway adapter standing between the spoke and the messaging relay:
//! its own configuration record, its pause switch, and the validation an
//! outbound message passes before the host hands it to the relay.
use vstd::prelude::*;

verus! {

use crate::bytes::bytes32_eq;
use crate::new_intent::{spec_zero_id, zero_id};

/// Largest message body the gateway forwards.
pub const MAX_GATEWAY_MESSAGE_SIZE: usize = 10240;

/// The gateway's configuration and pause switch.
#[derive(Clone, Debug)]
pub struct SpokeGatewayState {
    /// The owner of the gateway.
    pub owner: [u8; 32],
    /// The relay mailbox address.
    pub mailbox: [u8; 32],
    /// The message receiver address.
    pub receiver: [u8; 32],
    /// The interchain security module address.
    pub interchain_security_module: [u8; 32],
    /// The hub's identifier.
    pub everclear_id: u32,
    /// The hub gateway identity.
    pub everclear_gateway: [u8; 32],
    /// Whether the gateway is paused.
    pub paused: bool,
}

/// Errors of the gateway adapter.
#[derive(Clone, Copy, Debug, PartialEq, Eq, Structural)]
pub enum CustomError {
    /// Invalid owner address.
    InvalidOwner,
    /// Invalid mailbox address.
    InvalidMailbox,
    /// Invalid receiver address.
    InvalidReceiver,
    /// Invalid security module address.
    InvalidSecurityModule,
    /// Invalid hub identifier.
    InvalidEverclearId,
    /// Gateway is paused.
    GatewayPaused,
    /// Gateway is already paused.
    AlreadyPaused,
    /// Gateway is not paused.
    NotPaused,
    /// Unauthorized.
    Unauthorized,
    /// Empty message.
    EmptyMessage,
    /// Message too large.
    MessageTooLarge,
}

/// The error `initialize_gateway` rejects its parameters with, if any: each
/// identity must be set and the hub identifier nonzero, checked in order.
pub open spec fn spec_initialize_gateway_err(
    owner: Seq<u8>,
    mailbox: Seq<u8>,
    receiver: Seq<u8>,
    interchain_security_module: Seq<u8>,
    everclear_id: u32,
) -> Option<CustomError> {
    if owner == spec_zero_id() {
        Some(CustomError::InvalidOwner)
    } else if mailbox == spec_zero_id() {
        Some(CustomError::InvalidMailbox)
    } else if receiver == spec_zero_id() {
        Some(CustomError::InvalidReceiver)
    } else if interchain_security_module == spec_zero_id() {
        Some(CustomError::InvalidSecurityModule)
    } else if everclear_id == 0 {
        Some(CustomError::InvalidEverclearId)
    } else {
        None
    }
}

/// Initializes the gateway with its required parameters; every identity must
/// be set and the hub identifier nonzero.
pub fn initialize_gateway(
    state: &mut SpokeGatewayState,
    owner: [u8; 32],
    mailbox: [u8; 32],
    receiver: [u8; 32],
    interchain_security_module: [u8; 32],
    everclear_id: u32,
    everclear_gateway: [u8; 32],
) -> (r: Result<(), CustomError>)
    ensures
        match r {
            Err(e) => *final(state) == *old(state) && Some(e) == spec_initialize_gateway_err(
                owner@,
                mailbox@,
                receiver@,
                interchain_security_module@,
                everclear_id,
            ),
            Ok(()) => {
                &&& spec_initialize_gateway_err(
                    owner@,
                    mailbox@,
                    receiver@,
                    interchain_security_module@,
                    everclear_id,
                ) is None
                &&& *final(state) == (SpokeGatewayState {
                    owner,
                    mailbox,
                    receiver,
                    interchain_security_module,
                    everclear_id,
                    everclear_gateway,
                    paused: false,
                })
            },
        },
{
    let zero = zero_id();
    if bytes32_eq(&owner, &zero) {
        return Err(CustomError::InvalidOwner);
    }
    if bytes32_eq(&mailbox, &zero) {
        return Err(CustomError::InvalidMailbox);
    }
    if bytes32_eq(&receiver, &zero) {
        return Err(CustomError::InvalidReceiver);
    }
    if bytes32_eq(&interchain_security_module, &zero) {
        return Err(CustomError::InvalidSecurityModule);
    }
    if everclear_id == 0 {
        return Err(CustomError::InvalidEverclearId);
    }
    state.owner = owner;
    state.mailbox = mailbox;
    state.receiver = receiver;
    state.interchain_security_module = interchain_security_module;
    state.everclear_id = everclear_id;
    state.everclear_gateway = everclear_gateway;
    state.paused = false;
    Ok(())
}

/// Pauses the gateway.  Owner only, and only when not already paused.
pub fn pause(state: &mut SpokeGatewayState, caller: &[u8; 32]) -> (r: Result<(), CustomError>)
    ensures
        match r {
            Err(e) => *final(state) == *old(state) && (if caller@ != old(state).owner@ {
                e == CustomError::Unauthorized
            } else {
                e == CustomError::AlreadyPaused && old(state).paused
            }),
            Ok(()) => caller@ == old(state).owner@ && !old(state).paused && *final(state)
                == (SpokeGatewayState { paused: true, ..*old(state) }),
        },
{
    if !bytes32_eq(caller, &state.owner) {
        return Err(CustomError::Unauthorized);
    }
    if state.paused {
        return Err(CustomError::AlreadyPaused);
    }
    state.paused = true;
    Ok(())
}

/// Unpauses the gateway.  Owner only, and only when paused.
pub fn unpause(state: &mut SpokeGatewayState, caller: &[u8; 32]) -> (r: Result<(), CustomError>)
    ensures
        match r {
            Err(e) => *final(state) == *old(state) && (if caller@ != old(state).owner@ {
                e == CustomError::Unauthorized
            } else {
                e == CustomError::NotPaused && !old(state).paused
            }),
            Ok(()) => caller@ == old(state).owner@ && old(state).paused && *final(state)
                == (SpokeGatewayState { paused: false, ..*old(state) }),
        },
{
    if !bytes32_eq(caller, &state.owner) {
        return Err(CustomError::Unauthorized);
    }
    if !state.paused {
        return Err(CustomError::NotPaused);
    }
    state.paused = false;
    Ok(())
}

/// Validates one outbound message before the host hands it to the relay: the
/// gateway must be unpaused and the body nonempty and within the size bound.
/// Nothing is mutated; the relay call itself is the host's.
pub fn send_message(
    state: &SpokeGatewayState,
    destination_domain: u32,
    recipient: [u8; 32],
    message_body: &Vec<u8>,
) -> (r: Result<(), CustomError>)
    ensures
        match r {
            Err(e) => {
                &&& (if state.paused {
                    e == CustomError::GatewayPaused
                } else if message_body@.len() == 0 {
                    e == CustomError::EmptyMessage
                } else if message_body@.len() > MAX_GATEWAY_MESSAGE_SIZE {
                    e == CustomError::MessageTooLarge
                } else {
                    false
                })
            },
            Ok(()) => !state.paused && 0 < message_body@.len() <= MAX_GATEWAY_MESSAGE_SIZE,
        },
{
    if state.paused {
        return Err(CustomError::GatewayPaused);
    }
    if message_body.len() == 0 {
        return Err(CustomError::EmptyMessage);
    }
    if message_body.len() > MAX_GATEWAY_MESSAGE_SIZE {
        return Err(CustomError::MessageTooLarge);
    }
    let _ = destination_domain;
    let _ = recipient;
    Ok(())
}

} // verus!
