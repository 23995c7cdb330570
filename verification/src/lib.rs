//! Spoke-side engine of a cross-chain intent/settlement protocol.
//!
//! Users of a spoke ledger lock value and declare an *intent* to move it to
//! one or more remote domains; a hub domain later answers with a *settlement*
//! that the spoke must apply exactly once.  This crate holds the verified
//! protocol core: canonical intent encoding and hashing, decimal
//! normalization between token precisions, the ledger state with its FIFO
//! intent queue, and the inbound handler that validates and idempotently
//! applies settlement and configuration-update messages.  The host program
//! around it performs the account wiring, token transfers and relay calls.
use vstd::prelude::*;

pub mod bytes;
pub mod errors;
pub mod normalize;
pub mod intent;
pub mod messages;
pub mod hashing;
pub mod events;
pub mod queue;
pub mod state;
pub mod settlement;
pub mod handler;
pub mod dispatch;
pub mod new_intent;
pub mod process_queue;
pub mod admin;
pub mod call_executor;
pub mod gateway;

verus! {

/// Domain id of this spoke ledger.
pub const THIS_DOMAIN: u32 = 1399811149;

/// Domain id of the hub that matches intents and issues settlements.
pub const EVERCLEAR_DOMAIN: u32 = 25327;

/// Denominator for fees expressed in decibasis points.
pub const DBPS_DENOMINATOR: u32 = 10_000;

/// Canonical decimal precision shared by all domains.
pub const DEFAULT_NORMALIZED_DECIMALS: u8 = 18;

/// Identity of the hub gateway, zero-padded to 32 bytes.
pub const EVERCLEAR_GATEWAY_BYTES: [u8; 32] = [
    0, 0, 0, 0, 0, 0, 0, 0, 0, 0, 0, 0, 229, 242, 244, 175, 173, 98, 17, 207, 189, 106, 136, 45,
    90, 106, 67, 85, 48, 238, 57, 9,
];

/// The hub gateway identity that inbound messages must carry as sender.
pub fn everclear_gateway() -> (r: [u8; 32])
    ensures
        r == EVERCLEAR_GATEWAY_BYTES,
{
    EVERCLEAR_GATEWAY_BYTES
}

} // verus!
