//! Events that the ledger operations report.  The engine returns them as
//! plain values; the host program around it emits them on chain.
use vstd::prelude::*;

verus! {

use crate::state::InterchainGasPaymasterType;

#[derive(Clone, Debug)]
pub struct InitializedEvent {
    pub owner: [u8; 32],
    pub domain: u32,
    pub everclear: u32,
}

#[derive(Clone, Debug)]
pub struct PausedEvent {}

#[derive(Clone, Debug)]
pub struct UnpausedEvent {}

#[derive(Clone, Debug)]
pub struct WithdrawnEvent {
    pub user: [u8; 32],
    pub asset: [u8; 32],
    pub amount: u64,
}

#[derive(Clone, Debug)]
pub struct IntentAddedEvent {
    pub intent_id: [u8; 32],
    pub initiator: [u8; 32],
    pub receiver: [u8; 32],
    pub input_asset: [u8; 32],
    pub output_asset: [u8; 32],
    pub normalized_amount: u64,
    pub max_fee: u32,
    pub origin_domain: u32,
    pub ttl: u64,
    pub timestamp: u64,
    pub destinations: Vec<u32>,
    pub data: Vec<u8>,
}

#[derive(Clone, Debug)]
pub struct IntentQueueProcessedEvent {
    pub message_id: [u8; 32],
    pub first_index: u64,
    pub last_index: u64,
    pub fee_spent: u64,
}

#[derive(Clone, Debug)]
pub struct GatewayUpdatedEvent {
    pub old_gateway: [u8; 32],
    pub new_gateway: [u8; 32],
}

#[derive(Clone, Debug)]
pub struct MailboxUpdatedEvent {
    pub old_mailbox: [u8; 32],
    pub new_mailbox: [u8; 32],
}

#[derive(Clone, Debug)]
pub struct IgpUpdatedEvent {
    pub old_igp: [u8; 32],
    pub new_igp: [u8; 32],
    pub old_igp_type: InterchainGasPaymasterType,
    pub new_igp_type: InterchainGasPaymasterType,
}

#[derive(Clone, Debug)]
pub struct LighthouseUpdatedEvent {
    pub old_lighthouse: [u8; 32],
    pub new_lighthouse: [u8; 32],
}

#[derive(Clone, Debug)]
pub struct WatchtowerUpdatedEvent {
    pub old_watchtower: [u8; 32],
    pub new_watchtower: [u8; 32],
}

#[derive(Clone, Debug)]
pub struct MessageReceivedEvent {
    pub origin: u32,
    pub sender: [u8; 32],
}

#[derive(Clone, Debug)]
pub struct AssetTransferFailed {
    pub asset: [u8; 32],
    pub recipient: [u8; 32],
    pub amount: u64,
}

#[derive(Clone, Debug)]
pub struct SettledEvent {
    pub intent_id: [u8; 32],
    pub recipient: [u8; 32],
    pub asset: [u8; 32],
    pub amount: u64,
}

#[derive(Clone, Debug)]
pub struct MessageGasLimitUpdatedEvent {
    pub old_limit: u64,
    pub new_limit: u64,
}

#[derive(Clone, Debug)]
pub struct MailboxDispatchAuthorityBumpUpdatedEvent {
    pub old_bump: u8,
    pub new_bump: u8,
}

#[derive(Clone, Debug)]
pub struct VaultAuthorityBumpUpdatedEvent {
    pub old_bump: u8,
    pub new_bump: u8,
}

} // verus!
