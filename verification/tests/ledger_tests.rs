use everclear_spoke::admin::{
    initialize, pause, unpause, update_igp, update_lighthouse, update_mailbox,
    update_message_gas_limit, update_vault_authority_bump, update_watchtower, withdraw,
    SpokeInitializationParams,
};
use everclear_spoke::call_executor::{excessively_safe_call, CustomError};
use everclear_spoke::dispatch::{check_dispatch_accounts, finalize_dispatch};
use everclear_spoke::errors::SpokeError;
use everclear_spoke::everclear_gateway;
use everclear_spoke::handler::{handle, handle_as_admin, handle_message};
use everclear_spoke::messages::HandleInstruction;
use everclear_spoke::new_intent::{new_intent, NewIntentOutcome};
use everclear_spoke::process_queue::{process_intent_queue, queue_processed_event};
use everclear_spoke::queue::IntentQueue;
use everclear_spoke::state::{
    BalanceEntry, IntentStatus, InterchainGasPaymasterType, SpokeState,
};

const HUB_DOMAIN: u32 = 25_327;
const OWNER: [u8; 32] = [0x77; 32];
const LIGHTHOUSE: [u8; 32] = [0x11; 32];
const WATCHTOWER: [u8; 32] = [0x22; 32];

fn fresh_state() -> SpokeState {
    SpokeState {
        initialized_version: 1,
        paused: false,
        domain: 1_399_811_149,
        everclear: HUB_DOMAIN,
        gateway: everclear_gateway(),
        lighthouse: LIGHTHOUSE,
        watchtower: WATCHTOWER,
        call_executor: [0x33; 32],
        message_receiver: [0x44; 32],
        message_gas_limit: 20_000_000,
        nonce: 0,
        owner: OWNER,
        status: vec![],
        intent_queue: IntentQueue::new(),
        balances: vec![],
        allow_var_update_when_paused: true,
        bump: 1,
        mailbox: [0x55; 32],
        mailbox_dispatch_authority_bump: 2,
        igp: [0x66; 32],
        igp_type: InterchainGasPaymasterType::Igp([0x66; 32]),
        vault_authority_bump: 3,
    }
}

fn create_intent(state: &mut SpokeState, seed: u8) -> NewIntentOutcome {
    new_intent(
        state,
        [seed; 32],
        [0x02; 32],
        [0x03; 32],
        [0u8; 32],
        1_000_000,
        500,
        0,
        vec![HUB_DOMAIN],
        vec![seed],
        50_000,
        6,
        1_700_000_000,
    )
    .expect("intent creation should succeed")
}

fn settlement_record(
    intent_id: [u8; 32],
    amount: u64,
    asset: [u8; 32],
    recipient: [u8; 32],
    flag: bool,
) -> Vec<u8> {
    let mut r = Vec::new();
    r.extend_from_slice(&intent_id);
    let mut amount_word = [0u8; 32];
    amount_word[24..32].copy_from_slice(&amount.to_be_bytes());
    r.extend_from_slice(&amount_word);
    r.extend_from_slice(&asset);
    r.extend_from_slice(&recipient);
    let mut flag_word = [0u8; 32];
    flag_word[31] = if flag { 1 } else { 0 };
    r.extend_from_slice(&flag_word);
    r
}

fn settlement_message(records: &[Vec<u8>]) -> Vec<u8> {
    let mut m = vec![0u8; 32];
    m[31] = 2; // settlement type word
    m.extend_from_slice(&[0u8; 96]); // three framing words
    let mut count_word = [0u8; 32];
    count_word[28..32].copy_from_slice(&(records.len() as u32).to_be_bytes());
    m.extend_from_slice(&count_word);
    for r in records {
        m.extend_from_slice(r);
    }
    m
}

fn var_update_message(id: [u8; 32], value: [u8; 32]) -> Vec<u8> {
    let mut m = vec![0u8; 32];
    m[31] = 3; // var update type word
    m.extend_from_slice(&id);
    m.extend_from_slice(&value);
    m
}

fn inbound(message: Vec<u8>) -> HandleInstruction {
    HandleInstruction { origin: HUB_DOMAIN, sender: everclear_gateway(), message }
}

#[test]
fn new_intent_records_and_enqueues() {
    let mut state = fresh_state();
    let out = create_intent(&mut state, 1);
    assert_eq!(state.nonce, 1);
    assert_eq!(state.status.len(), 1);
    assert_eq!(state.status[0].key, out.intent_id);
    assert_eq!(state.status[0].status, IntentStatus::Added);
    assert_eq!(state.intent_queue.items, vec![out.intent_id]);
    assert_eq!(state.intent_queue.first_index, 0);
    assert_eq!(state.intent_queue.last_index, 1);
    assert_eq!(out.transfer.destination_domain, HUB_DOMAIN);
    assert_eq!(out.transfer.recipient, everclear_gateway());
    // amount 1_000_000 at 6 local decimals normalizes to 10^18 canonical.
    assert_eq!(out.transfer.amount_or_id, 1_000_000_000_000_000_000);
    assert_eq!(out.transfer.gas_amount, 50_000);
    assert_eq!(out.event.normalized_amount, 1_000_000_000_000_000_000);
    assert_eq!(out.event.intent_id, out.intent_id);
    assert_eq!(out.intent.nonce, 1);
    // The envelope's amount word (word 9 of the struct head, after the three
    // array words) carries the normalized value exactly.
    let amount_word = &out.transfer.message_body[96 + 96 + 9 * 32..96 + 96 + 10 * 32];
    assert_eq!(&amount_word[24..], &1_000_000_000_000_000_000u64.to_be_bytes());
}

#[test]
fn new_intent_multi_destination_requires_no_ttl_and_no_output_asset() {
    let mut state = fresh_state();
    let r = new_intent(
        &mut state,
        [1; 32],
        [2; 32],
        [3; 32],
        [0; 32],
        1_000_000,
        500,
        60,
        vec![HUB_DOMAIN, 1],
        vec![],
        50_000,
        6,
        0,
    );
    assert_eq!(r.err(), Some(SpokeError::InvalidIntent));
    assert_eq!(state.nonce, 0);
    assert_eq!(state.status.len(), 0);
}

#[test]
fn new_intent_single_destination_with_ttl_requires_output_asset() {
    let mut state = fresh_state();
    let r = new_intent(
        &mut state,
        [1; 32],
        [2; 32],
        [3; 32],
        [0; 32],
        1_000_000,
        500,
        60,
        vec![HUB_DOMAIN],
        vec![],
        50_000,
        6,
        0,
    );
    assert_eq!(r.err(), Some(SpokeError::InvalidIntent));

    // With the output asset set the same request passes.
    let ok = new_intent(
        &mut state,
        [1; 32],
        [2; 32],
        [3; 32],
        [4; 32],
        1_000_000,
        500,
        60,
        vec![HUB_DOMAIN],
        vec![],
        50_000,
        6,
        0,
    );
    assert!(ok.is_ok());
}

#[test]
fn new_intent_validation_errors() {
    let mut state = fresh_state();
    state.paused = true;
    let paused = create_try(&mut state, 1_000_000, 500, vec![HUB_DOMAIN]);
    assert_eq!(paused.err(), Some(SpokeError::ContractPaused));
    state.paused = false;

    let empty = create_try(&mut state, 1_000_000, 500, vec![]);
    assert_eq!(empty.err(), Some(SpokeError::InvalidOperation));

    let crowded = create_try(&mut state, 1_000_000, 500, vec![1; 11]);
    assert_eq!(crowded.err(), Some(SpokeError::InvalidIntent));

    let greedy = create_try(&mut state, 1_000_000, 10_001, vec![HUB_DOMAIN]);
    assert_eq!(greedy.err(), Some(SpokeError::MaxFeeExceeded));

    let dust = create_try(&mut state, 0, 500, vec![HUB_DOMAIN]);
    assert_eq!(dust.err(), Some(SpokeError::ZeroAmount));

    assert_eq!(state.nonce, 0);
    assert_eq!(state.intent_queue.items.len(), 0);
}

fn create_try(
    state: &mut SpokeState,
    amount: u64,
    max_fee: u32,
    destinations: Vec<u32>,
) -> Result<NewIntentOutcome, SpokeError> {
    new_intent(
        state,
        [1; 32],
        [2; 32],
        [3; 32],
        [0; 32],
        amount,
        max_fee,
        0,
        destinations,
        vec![],
        50_000,
        6,
        0,
    )
}

#[test]
fn queue_is_first_in_first_out() {
    let mut state = fresh_state();
    let a = create_intent(&mut state, 1);
    let b = create_intent(&mut state, 2);
    let c = create_intent(&mut state, 3);
    let ids = [a.intent_id, b.intent_id, c.intent_id];
    assert_eq!(state.intent_queue.items, ids.to_vec());

    // Batch pop of two: the first two created intents leave, in order.
    let out = process_intent_queue(&mut state, &vec![a.intent, b.intent], 9_000).unwrap();
    assert_eq!(state.intent_queue.items, vec![c.intent_id]);
    assert_eq!(state.intent_queue.first_index, 2);
    assert_eq!(state.intent_queue.last_index, 3);
    assert_eq!(out.first_index, 0);
    assert_eq!(out.last_index, 2);
    assert_eq!(out.transfer.destination_domain, HUB_DOMAIN);
    assert_eq!(out.transfer.gas_amount, 9_000);
    // tag byte, record count, then the canonical encodings.
    assert_eq!(out.transfer.message_body[0], 0);
    assert_eq!(&out.transfer.message_body[1..5], &2u32.to_be_bytes());

    let ev = queue_processed_event(&out, [0xAB; 32], 123);
    assert_eq!(ev.message_id, [0xAB; 32]);
    assert_eq!(ev.first_index, 0);
    assert_eq!(ev.last_index, 2);
    assert_eq!(ev.fee_spent, 123);
}

#[test]
fn queue_rejects_mismatched_batch() {
    let mut state = fresh_state();
    let a = create_intent(&mut state, 1);
    let b = create_intent(&mut state, 2);
    // Presenting the second intent first does not match the queue head.
    let r = process_intent_queue(&mut state, &vec![b.intent], 9_000);
    assert_eq!(r.err(), Some(SpokeError::InvalidQueueOperation));
    assert_eq!(state.intent_queue.items, vec![a.intent_id, b.intent_id]);
    assert_eq!(state.intent_queue.first_index, 0);

    let empty = process_intent_queue(&mut state, &vec![], 9_000);
    assert_eq!(empty.err(), Some(SpokeError::InvalidAmount));
}

#[test]
fn settlement_pays_out_and_settles() {
    let mut state = fresh_state();
    let out = create_intent(&mut state, 1);
    let record = settlement_record(out.intent_id, 2_000_000, [0x0A; 32], [0x0B; 32], false);
    let message = settlement_message(&[record]);
    let result = handle_message(&mut state, &inbound(message), &vec![6]).unwrap();
    assert_eq!(result.received.origin, HUB_DOMAIN);
    assert_eq!(result.received.sender, everclear_gateway());
    assert_eq!(result.settled.len(), 1);
    let ev = &result.settled[0];
    assert_eq!(ev.intent_id, out.intent_id);
    assert_eq!(ev.asset, [0x0A; 32]);
    assert_eq!(ev.recipient, [0x0B; 32]);
    // 2_000_000 at 6 local decimals normalizes to 2 * 10^18.
    assert_eq!(ev.amount, 2_000_000_000_000_000_000);
    assert_eq!(state.status[0].status, IntentStatus::Settled);
}

#[test]
fn settlement_is_idempotent() {
    let mut state = fresh_state();
    let out = create_intent(&mut state, 1);
    let record = settlement_record(out.intent_id, 2_000_000, [0x0A; 32], [0x0B; 32], false);
    let message = settlement_message(&[record]);

    let first = handle_message(&mut state, &inbound(message.clone()), &vec![6]).unwrap();
    assert_eq!(first.settled.len(), 1);
    let status_after_first = state.status.clone();

    // The very same settlement again: no payout, no state change.
    let second = handle_message(&mut state, &inbound(message), &vec![6]).unwrap();
    assert_eq!(second.settled.len(), 0);
    assert_eq!(state.status.len(), status_after_first.len());
    assert_eq!(state.status[0].status, IntentStatus::Settled);
}

#[test]
fn settlement_for_unknown_intent_is_skipped() {
    let mut state = fresh_state();
    let out = create_intent(&mut state, 1);
    let unknown = settlement_record([0xEE; 32], 5_000_000, [0x0A; 32], [0x0B; 32], false);
    let known = settlement_record(out.intent_id, 2_000_000, [0x0A; 32], [0x0B; 32], false);
    let message = settlement_message(&[unknown, known]);
    // The unknown record must not abort the batch; the known one applies.
    let result = handle_message(&mut state, &inbound(message), &vec![6, 6]).unwrap();
    assert_eq!(result.settled.len(), 1);
    assert_eq!(result.settled[0].intent_id, out.intent_id);
    assert_eq!(state.status.len(), 1);
    assert_eq!(state.status[0].status, IntentStatus::Settled);
}

#[test]
fn dust_settlement_settles_without_payout() {
    let mut state = fresh_state();
    let out = create_intent(&mut state, 1);
    // Local precision above canonical: the low amount truncates to zero.
    let record = settlement_record(out.intent_id, 5, [0x0A; 32], [0x0B; 32], false);
    let message = settlement_message(&[record]);
    let result = handle_message(&mut state, &inbound(message), &vec![20]).unwrap();
    assert_eq!(result.settled.len(), 0);
    assert_eq!(state.status[0].status, IntentStatus::Settled);
}

#[test]
fn inbound_provenance_is_checked() {
    let mut state = fresh_state();
    let record = settlement_record([1; 32], 1, [2; 32], [3; 32], false);
    let message = settlement_message(&[record]);

    let wrong_origin = HandleInstruction {
        origin: 1,
        sender: everclear_gateway(),
        message: message.clone(),
    };
    assert_eq!(
        handle_message(&mut state, &wrong_origin, &vec![6]).err(),
        Some(SpokeError::InvalidOrigin)
    );

    let wrong_sender = HandleInstruction {
        origin: HUB_DOMAIN,
        sender: [9; 32],
        message: message.clone(),
    };
    assert_eq!(
        handle_message(&mut state, &wrong_sender, &vec![6]).err(),
        Some(SpokeError::InvalidSender)
    );

    assert_eq!(
        handle_message(&mut state, &inbound(vec![]), &vec![]).err(),
        Some(SpokeError::InvalidMessage)
    );

    let mut unknown_tag = vec![0u8; 32];
    unknown_tag[31] = 9;
    assert_eq!(
        handle_message(&mut state, &inbound(unknown_tag), &vec![]).err(),
        Some(SpokeError::InvalidMessage)
    );

    // Intent and fill messages are not accepted inbound.
    let mut intent_tag = vec![0u8; 32];
    intent_tag[31] = 0;
    assert_eq!(
        handle_message(&mut state, &inbound(intent_tag), &vec![]).err(),
        Some(SpokeError::InvalidMessage)
    );
}

#[test]
fn truncated_settlement_batches_are_invalid() {
    let mut state = fresh_state();
    // A batch whose length word announces one record but carries none.
    let mut message = settlement_message(&[]);
    message[32 + 127] = 1;
    assert_eq!(
        handle_message(&mut state, &inbound(message), &vec![6]).err(),
        Some(SpokeError::InvalidMessage)
    );
    // A settlement message shorter than its batch header.
    let mut short = vec![0u8; 32];
    short[31] = 2;
    short.extend_from_slice(&[0u8; 64]);
    assert_eq!(
        handle_message(&mut state, &inbound(short), &vec![]).err(),
        Some(SpokeError::InvalidMessage)
    );
}

#[test]
fn settlement_needs_one_decimal_per_record() {
    let mut state = fresh_state();
    let out = create_intent(&mut state, 1);
    let record = settlement_record(out.intent_id, 1_000_000, [2; 32], [3; 32], false);
    let message = settlement_message(&[record]);
    assert_eq!(
        handle_message(&mut state, &inbound(message), &vec![]).err(),
        Some(SpokeError::InvalidAccount)
    );
    assert_eq!(state.status[0].status, IntentStatus::Added);
}

#[test]
fn pause_blocks_settlements_but_may_admit_var_updates() {
    let mut state = fresh_state();
    let out = create_intent(&mut state, 1);
    state.paused = true;

    let record = settlement_record(out.intent_id, 1_000_000, [2; 32], [3; 32], false);
    assert_eq!(
        handle_message(&mut state, &inbound(settlement_message(&[record])), &vec![6]).err(),
        Some(SpokeError::ContractPaused)
    );

    // Configuration updates pass while paused when so configured...
    let message = var_update_message([1; 32], [0xCD; 32]);
    assert!(handle_message(&mut state, &inbound(message.clone()), &vec![]).is_ok());
    assert_eq!(state.gateway, [0xCD; 32]);

    // ... and are blocked otherwise.
    state.allow_var_update_when_paused = false;
    state.gateway = everclear_gateway();
    assert_eq!(
        handle_message(&mut state, &inbound(message), &vec![]).err(),
        Some(SpokeError::ContractPaused)
    );
}

#[test]
fn var_updates_rewrite_the_named_identity() {
    let mut state = fresh_state();
    assert!(handle_message(&mut state, &inbound(var_update_message([2; 32], [0xA1; 32])), &vec![])
        .is_ok());
    assert_eq!(state.mailbox, [0xA1; 32]);
    assert!(handle_message(&mut state, &inbound(var_update_message([3; 32], [0xA2; 32])), &vec![])
        .is_ok());
    assert_eq!(state.lighthouse, [0xA2; 32]);
    assert!(handle_message(&mut state, &inbound(var_update_message([4; 32], [0xA3; 32])), &vec![])
        .is_ok());
    assert_eq!(state.watchtower, [0xA3; 32]);

    assert_eq!(
        handle_message(&mut state, &inbound(var_update_message([9; 32], [0xA4; 32])), &vec![])
            .err(),
        Some(SpokeError::InvalidVarUpdate)
    );

    let mut short = vec![0u8; 32];
    short[31] = 3;
    short.extend_from_slice(&[1; 32]);
    assert_eq!(
        handle_message(&mut state, &inbound(short), &vec![]).err(),
        Some(SpokeError::InvalidMessage)
    );
}

#[test]
fn handle_entry_points_check_their_authority() {
    let mut state = fresh_state();
    let message = var_update_message([1; 32], [0xCD; 32]);
    let instruction = inbound(message);

    let authority = [0x50; 32];
    let process_authority = [0x51; 32];
    assert_eq!(
        handle(&mut state, &authority, &process_authority, &instruction, &vec![]).err(),
        Some(SpokeError::InvalidSender)
    );
    assert!(handle(&mut state, &authority, &authority, &instruction, &vec![]).is_ok());

    let mut state2 = fresh_state();
    assert_eq!(
        handle_as_admin(&mut state2, &[0x01; 32], &instruction, &vec![]).err(),
        Some(SpokeError::InvalidSender)
    );
    assert!(handle_as_admin(&mut state2, &OWNER, &instruction, &vec![]).is_ok());
}

#[test]
fn pause_and_unpause_are_role_gated() {
    let mut state = fresh_state();
    assert_eq!(
        pause(&mut state, &[9; 32]).err(),
        Some(SpokeError::NotAuthorizedToPause)
    );
    assert!(!state.paused);
    assert!(pause(&mut state, &LIGHTHOUSE).is_ok());
    assert!(state.paused);
    assert!(unpause(&mut state, &WATCHTOWER).is_ok());
    assert!(!state.paused);
}

#[test]
fn admin_updates_are_owner_gated() {
    let mut state = fresh_state();
    assert_eq!(
        update_lighthouse(&mut state, &[9; 32], [1; 32]).err(),
        Some(SpokeError::OnlyOwner)
    );
    let ev = update_lighthouse(&mut state, &OWNER, [0xAA; 32]).unwrap();
    assert_eq!(ev.old_lighthouse, LIGHTHOUSE);
    assert_eq!(ev.new_lighthouse, [0xAA; 32]);
    assert_eq!(state.lighthouse, [0xAA; 32]);

    let ev = update_watchtower(&mut state, &OWNER, [0xAB; 32]).unwrap();
    assert_eq!(ev.new_watchtower, [0xAB; 32]);
    let ev = update_mailbox(&mut state, &OWNER, [0xAC; 32]).unwrap();
    assert_eq!(ev.new_mailbox, [0xAC; 32]);
    let ev = update_igp(
        &mut state,
        &OWNER,
        [0xAD; 32],
        InterchainGasPaymasterType::OverheadIgp([0xAE; 32]),
    )
    .unwrap();
    assert_eq!(ev.new_igp, [0xAD; 32]);
    assert_eq!(state.igp_type.key(), &[0xAE; 32]);
    let ev = update_message_gas_limit(&mut state, &OWNER, 42).unwrap();
    assert_eq!(ev.old_limit, 20_000_000);
    assert_eq!(state.message_gas_limit, 42);
    let ev = update_vault_authority_bump(&mut state, &OWNER, 9).unwrap();
    assert_eq!(ev.old_bump, 3);
    assert_eq!(state.vault_authority_bump, 9);
}

#[test]
fn initialize_runs_once() {
    let mut state = fresh_state();
    state.initialized_version = 0;
    let params = SpokeInitializationParams {
        domain: 7,
        hub_domain: 8,
        lighthouse: [1; 32],
        watchtower: [2; 32],
        call_executor: [3; 32],
        message_receiver: [4; 32],
        message_gas_limit: 99,
        owner: [5; 32],
        mailbox: [6; 32],
        igp: [7; 32],
        igp_type: InterchainGasPaymasterType::Igp([7; 32]),
        mailbox_dispatch_authority_bump: 11,
        allow_var_update_when_paused: false,
    };

    let mut bad = params.clone();
    bad.owner = [0; 32];
    assert_eq!(
        initialize(&mut state, &bad, 1).err(),
        Some(SpokeError::InvalidOwner)
    );

    let ev = initialize(&mut state, &params, 13).unwrap();
    assert_eq!(ev.owner, [5; 32]);
    assert_eq!(ev.domain, 7);
    assert_eq!(ev.everclear, 8);
    assert_eq!(state.initialized_version, 1);
    assert_eq!(state.domain, 7);
    assert_eq!(state.everclear, 8);
    assert_eq!(state.gateway, everclear_gateway());
    assert_eq!(state.nonce, 0);
    assert_eq!(state.bump, 13);
    assert!(!state.allow_var_update_when_paused);

    assert_eq!(
        initialize(&mut state, &params, 13).err(),
        Some(SpokeError::AlreadyInitialized)
    );
}

#[test]
fn withdraw_reduces_the_vault_credit() {
    let mut state = fresh_state();
    let user = [0x61; 32];
    let asset = [0x62; 32];
    state.balances = vec![BalanceEntry { asset, user, amount: 100 }];

    let ev = withdraw(&mut state, &user, &asset, 40).unwrap();
    assert_eq!(ev.user, user);
    assert_eq!(ev.asset, asset);
    assert_eq!(ev.amount, 40);
    assert_eq!(state.balances[0].amount, 60);

    assert_eq!(
        withdraw(&mut state, &user, &asset, 100).err(),
        Some(SpokeError::InvalidAmount)
    );
    assert_eq!(
        withdraw(&mut state, &user, &asset, 0).err(),
        Some(SpokeError::InvalidAmount)
    );
    state.paused = true;
    assert_eq!(
        withdraw(&mut state, &user, &asset, 1).err(),
        Some(SpokeError::ContractPaused)
    );
    assert_eq!(state.balances[0].amount, 60);
}

#[test]
fn guarded_call_validates_its_inputs() {
    let ok = excessively_safe_call([1; 32], 0, 0, 256, &vec![1, 2, 3, 4, 5]).unwrap();
    assert_eq!(ok, (true, vec![]));

    assert_eq!(
        excessively_safe_call([0; 32], 0, 0, 256, &vec![1]).err(),
        Some(CustomError::InvalidTarget)
    );
    assert_eq!(
        excessively_safe_call([1; 32], 0, 0, 0, &vec![1]).err(),
        Some(CustomError::InvalidMaxCopy)
    );
    assert_eq!(
        excessively_safe_call([1; 32], 0, 0, 256, &vec![]).err(),
        Some(CustomError::EmptyCalldata)
    );
    assert_eq!(
        excessively_safe_call([1; 32], 0, 0, 256, &vec![0; 10_241]).err(),
        Some(CustomError::CalldataTooLarge)
    );
}

#[test]
fn dispatch_account_lineup_is_checked_against_configuration() {
    let mut state = fresh_state();
    let authority = [0x41; 32];
    assert!(check_dispatch_accounts(&state, &authority, &authority, &[0x66; 32], &[0x66; 32], false)
        .is_ok());
    assert_eq!(
        check_dispatch_accounts(&state, &authority, &[0x42; 32], &[0x66; 32], &[0x66; 32], false)
            .err(),
        Some(SpokeError::InvalidArgument)
    );
    assert_eq!(
        check_dispatch_accounts(&state, &authority, &authority, &[0x01; 32], &[0x66; 32], false)
            .err(),
        Some(SpokeError::InvalidAccount)
    );
    assert_eq!(
        check_dispatch_accounts(&state, &authority, &authority, &[0x66; 32], &[0x02; 32], false)
            .err(),
        Some(SpokeError::InvalidAccount)
    );
    // An overhead paymaster needs its inner account in the lineup.
    state.igp_type = InterchainGasPaymasterType::OverheadIgp([0x67; 32]);
    assert_eq!(
        check_dispatch_accounts(&state, &authority, &authority, &[0x66; 32], &[0x67; 32], false)
            .err(),
        Some(SpokeError::InvalidArgument)
    );
    assert!(check_dispatch_accounts(&state, &authority, &authority, &[0x66; 32], &[0x67; 32], true)
        .is_ok());
}

#[test]
fn dispatch_fails_unless_both_phases_succeed() {
    assert_eq!(finalize_dispatch(Some([7; 32]), true), Ok([7; 32]));
    assert_eq!(
        finalize_dispatch(None, true),
        Err(SpokeError::InvalidArgument)
    );
    assert_eq!(
        finalize_dispatch(Some([7; 32]), false),
        Err(SpokeError::InvalidOperation)
    );
}
