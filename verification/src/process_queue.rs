//! Batch processing of the pending-intent queue: the head intents are
//! checked against the queue, removed first-in first-out, and dispatched to
//! the hub in one canonical batch message.
use vstd::prelude::*;

verus! {

use crate::bytes::{append_bytes, be_bytes_of, bytes32_eq, u32_to_4bytes};
use crate::dispatch::TransferRemote;
use crate::errors::SpokeError;
use crate::events::IntentQueueProcessedEvent;
use crate::hashing::{compute_intent_hash, spec_intent_hash};
use crate::intent::{encode_single_intent, spec_encode_intent, EVMIntent, MAX_INTENT_DESTINATIONS};
use crate::messages::MessageType;
use crate::state::SpokeState;

/// The canonical encodings of a run of intents, back to back.
pub open spec fn spec_intents_encoding(intents: Seq<EVMIntent>) -> Seq<u8>
    decreases intents.len(),
{
    if intents.len() == 0 {
        Seq::empty()
    } else {
        spec_intents_encoding(intents.drop_last()) + spec_encode_intent(intents.last()@)
    }
}

/// The batch message: the intent message-type tag, a four-byte big-endian
/// record count, then the canonical encodings in order.
pub open spec fn spec_batch_message(intents: Seq<EVMIntent>) -> Seq<u8> {
    seq![MessageType::Intent.as_byte_spec()] + be_bytes_of(intents.len(), 4) + spec_intents_encoding(
        intents,
    )
}

/// The first mismatch between the presented intents and the queue, if any:
/// an intent that breaks the destination bound, or one whose identity does
/// not stand at the matching queue position.
pub open spec fn spec_queue_match_err(queue: Seq<[u8; 32]>, intents: Seq<EVMIntent>) -> Option<
    SpokeError,
>
    decreases intents.len(),
{
    if intents.len() == 0 {
        None
    } else if intents[0].destinations@.len() > MAX_INTENT_DESTINATIONS {
        Some(SpokeError::InvalidIntent)
    } else if queue.len() == 0 || queue[0]@ != spec_intent_hash(intents[0]@) {
        Some(SpokeError::InvalidQueueOperation)
    } else {
        spec_queue_match_err(queue.skip(1), intents.skip(1))
    }
}

/// The error `process_intent_queue` rejects a batch with, if any.
pub open spec fn spec_process_queue_err(state: SpokeState, intents: Seq<EVMIntent>) -> Option<
    SpokeError,
> {
    if state.paused {
        Some(SpokeError::ContractPaused)
    } else if intents.len() == 0 {
        Some(SpokeError::InvalidAmount)
    } else {
        spec_queue_match_err(state.intent_queue.items@, intents)
    }
}

/// What one batch run hands back to the host: the envelope to dispatch and
/// the queue positions the batch covered.
pub struct QueueBatchOutcome {
    pub transfer: TransferRemote,
    pub first_index: u64,
    pub last_index: u64,
}

/// Processes a batch of intents at the head of the queue.
///
/// Each presented intent must hash to the id at its queue position, head
/// first; a mismatch rejects the whole batch and removes nothing.  On
/// success the ids leave the queue first-in first-out and the envelope holds
/// the batch message for the hub.
#[verifier::rlimit(60)]
pub fn process_intent_queue(
    state: &mut SpokeState,
    intents: &Vec<EVMIntent>,
    message_gas_limit: u64,
) -> (r: Result<QueueBatchOutcome, SpokeError>)
    requires
        old(state).wf(),
        intents@.len() <= u32::MAX,
    ensures
        final(state).wf(),
        match r {
            Err(e) => *final(state) == *old(state) && Some(e) == spec_process_queue_err(
                *old(state),
                intents@,
            ),
            Ok(out) => {
                let k = intents@.len() as int;
                &&& spec_process_queue_err(*old(state), intents@) is None
                &&& old(state).eq_except_queue(*final(state))
                &&& k <= old(state).intent_queue.items@.len()
                &&& forall|i: int|
                    0 <= i < k ==> old(state).intent_queue.items@[i]@ == spec_intent_hash(
                        #[trigger] intents@[i]@,
                    )
                &&& final(state).intent_queue.items@ == old(state).intent_queue.items@.skip(k)
                &&& final(state).intent_queue.first_index == old(state).intent_queue.first_index
                    + k
                &&& final(state).intent_queue.last_index == old(state).intent_queue.last_index
                &&& out.first_index == old(state).intent_queue.first_index
                &&& out.last_index == old(state).intent_queue.first_index + k
                &&& out.transfer.destination_domain == old(state).everclear
                &&& out.transfer.recipient == old(state).gateway
                &&& out.transfer.amount_or_id == 0
                &&& out.transfer.gas_amount == message_gas_limit
                &&& out.transfer.message_body@ == spec_batch_message(intents@)
            },
        },
{
    if state.paused {
        return Err(SpokeError::ContractPaused);
    }
    let n: usize = intents.len();
    if n == 0 {
        return Err(SpokeError::InvalidAmount);
    }

    let ghost q0 = state.intent_queue.items@;
    let mut i: usize = 0;
    while i < n
        invariant
            i <= n,
            1 <= n,
            n == intents@.len(),
            *state == *old(state),
            old(state).wf(),
            !old(state).paused,
            q0 == state.intent_queue.items@,
            i <= q0.len(),
            forall|j: int|
                0 <= j < i ==> #[trigger] intents@[j].destinations@.len()
                    <= MAX_INTENT_DESTINATIONS,
            forall|j: int|
                0 <= j < i ==> #[trigger] q0[j]@ == spec_intent_hash(intents@[j]@),
        decreases n - i,
    {
        if intents[i].destinations.len() > MAX_INTENT_DESTINATIONS {
            proof {
                lemma_match_err_prefix(q0, intents@, i as int);
                assert(intents@.skip(i as int)[0] == intents@[i as int]);
            }
            return Err(SpokeError::InvalidIntent);
        }
        let h = compute_intent_hash(&intents[i]);
        if i >= state.intent_queue.len() {
            proof {
                lemma_match_err_prefix(q0, intents@, i as int);
                assert(intents@.skip(i as int)[0] == intents@[i as int]);
                assert(q0.skip(i as int).len() == 0);
            }
            return Err(SpokeError::InvalidQueueOperation);
        }
        if !bytes32_eq(&state.intent_queue.items[i], &h) {
            proof {
                lemma_match_err_prefix(q0, intents@, i as int);
                assert(intents@.skip(i as int)[0] == intents@[i as int]);
                assert(q0.skip(i as int)[0] == q0[i as int]);
            }
            return Err(SpokeError::InvalidQueueOperation);
        }
        i += 1;
    }
    proof {
        lemma_match_err_prefix(q0, intents@, n as int);
        assert(intents@.skip(n as int).len() == 0);
    }

    let mut encodings: Vec<u8> = Vec::new();
    let mut e: usize = 0;
    proof {
        assert(intents@.take(0) =~= Seq::<EVMIntent>::empty());
    }
    while e < n
        invariant
            e <= n,
            n == intents@.len(),
            forall|j: int|
                0 <= j < n ==> #[trigger] intents@[j].destinations@.len()
                    <= MAX_INTENT_DESTINATIONS,
            encodings@ == spec_intents_encoding(intents@.take(e as int)),
        decreases n - e,
    {
        let encoded = encode_single_intent(&intents[e]);
        append_bytes(&mut encodings, encoded.as_slice());
        proof {
            let t = intents@.take(e + 1);
            assert(t.drop_last() =~= intents@.take(e as int));
            assert(t.last() == intents@[e as int]);
        }
        e += 1;
    }
    proof {
        assert(intents@.take(n as int) =~= intents@);
    }

    let mut message_body: Vec<u8> = Vec::new();
    let tag: [u8; 1] = [MessageType::Intent.as_byte()];
    append_bytes(&mut message_body, tag.as_slice());
    let count = u32_to_4bytes(n as u32);
    append_bytes(&mut message_body, count.as_slice());
    append_bytes(&mut message_body, encodings.as_slice());
    proof {
        assert(tag@ =~= seq![MessageType::Intent.as_byte_spec()]);
        assert(message_body@ =~= spec_batch_message(intents@));
    }

    let out_first = state.intent_queue.first_index;
    let mut popped: usize = 0;
    while popped < n
        invariant
            popped <= n,
            n <= old(state).intent_queue.items@.len(),
            old(state).eq_except_queue(*state),
            state.intent_queue.wf(),
            state.intent_queue.items@ == old(state).intent_queue.items@.skip(popped as int),
            state.intent_queue.first_index == old(state).intent_queue.first_index + popped,
            state.intent_queue.last_index == old(state).intent_queue.last_index,
        decreases n - popped,
    {
        match state.intent_queue.pop_front() {
            Ok(_) => {},
            Err(e) => {
                proof {
                    assert(false);
                }
                return Err(e);
            },
        }
        proof {
            assert(old(state).intent_queue.items@.skip(popped as int).skip(1)
                =~= old(state).intent_queue.items@.skip(popped + 1));
        }
        popped += 1;
    }

    Ok(
        QueueBatchOutcome {
            transfer: TransferRemote {
                destination_domain: state.everclear,
                recipient: state.gateway,
                amount_or_id: 0,
                gas_amount: message_gas_limit,
                message_body,
            },
            first_index: out_first,
            last_index: out_first + (n as u64),
        },
    )
}

/// A presented prefix that matches the queue head leaves the mismatch check
/// to the remainder.
proof fn lemma_match_err_prefix(queue: Seq<[u8; 32]>, intents: Seq<EVMIntent>, i: int)
    requires
        0 <= i <= intents.len(),
        i <= queue.len(),
        forall|j: int|
            0 <= j < i ==> #[trigger] intents[j].destinations@.len() <= MAX_INTENT_DESTINATIONS,
        forall|j: int| 0 <= j < i ==> #[trigger] queue[j]@ == spec_intent_hash(intents[j]@),
    ensures
        spec_queue_match_err(queue, intents) == spec_queue_match_err(
            queue.skip(i),
            intents.skip(i),
        ),
    decreases i,
{
    if i > 0 {
        assert(intents[0].destinations@.len() <= MAX_INTENT_DESTINATIONS);
        assert(queue[0]@ == spec_intent_hash(intents[0]@));
        assert(spec_queue_match_err(queue, intents) == spec_queue_match_err(
            queue.skip(1),
            intents.skip(1),
        ));
        assert(forall|j: int| 0 <= j < i - 1 ==> #[trigger] intents.skip(1)[j] == intents[j + 1]);
        assert(forall|j: int| 0 <= j < i - 1 ==> #[trigger] queue.skip(1)[j] == queue[j + 1]);
        lemma_match_err_prefix(queue.skip(1), intents.skip(1), i - 1);
        assert(queue.skip(1).skip(i - 1) =~= queue.skip(i));
        assert(intents.skip(1).skip(i - 1) =~= intents.skip(i));
    } else {
        assert(queue.skip(0) =~= queue);
        assert(intents.skip(0) =~= intents);
    }
}

/// Builds the queue-processed event once the relay has answered with the
/// message identifier and the fee it spent.
pub fn queue_processed_event(
    outcome: &QueueBatchOutcome,
    message_id: [u8; 32],
    fee_spent: u64,
) -> (ev: IntentQueueProcessedEvent)
    ensures
        ev.message_id == message_id,
        ev.first_index == outcome.first_index,
        ev.last_index == outcome.last_index,
        ev.fee_spent == fee_spent,
{
    IntentQueueProcessedEvent {
        message_id,
        first_index: outcome.first_index,
        last_index: outcome.last_index,
        fee_spent,
    }
}

} // verus!
