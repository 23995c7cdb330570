//! The intent record and its canonical cross-domain encoding.
//!
//! The encoding is a fixed-layout, big-endian, 32-byte-word scheme chosen to
//! be byte-identical to the ABI-style encoding produced by counterpart
//! ledgers on other domains.  A struct occupies a head of exactly twelve
//! words; the two variable-length fields live in a tail region addressed by
//! byte offsets stored in the last two head words.
use vstd::prelude::*;

verus! {

use crate::bytes::{
    append_bytes, append_zero_bytes, be_bytes_of, lemma_be_bytes_of_len, u256_to_32bytes,
    zero_bytes,
};
use crate::messages::MessageType;

broadcast use lemma_be_bytes_of_len;

/// Number of 32-byte words in the fixed head of an encoded intent.
pub const INTENT_HEAD_WORDS: u64 = 12;

/// Most destination domains an intent may name.
pub const MAX_INTENT_DESTINATIONS: usize = 10;

/// An intent record, laid out field-for-field like its counterpart structure
/// on the other domains.  Identities are 32-byte values; the amount is
/// already a 32-byte big-endian word in canonical precision.
#[derive(Clone, Debug)]
pub struct EVMIntent {
    pub initiator: [u8; 32],
    pub receiver: [u8; 32],
    pub input_asset: [u8; 32],
    pub output_asset: [u8; 32],
    pub max_fee: u32,
    pub origin: u32,
    pub nonce: u64,
    pub timestamp: u64,
    pub ttl: u64,
    pub amount: [u8; 32],
    pub destinations: Vec<u32>,
    pub data: Vec<u8>,
}

/// Mathematical picture of an intent: each field as a sequence or integer.
pub ghost struct IntentView {
    pub initiator: Seq<u8>,
    pub receiver: Seq<u8>,
    pub input_asset: Seq<u8>,
    pub output_asset: Seq<u8>,
    pub max_fee: u32,
    pub origin: u32,
    pub nonce: u64,
    pub timestamp: u64,
    pub ttl: u64,
    pub amount: Seq<u8>,
    pub destinations: Seq<u32>,
    pub data: Seq<u8>,
}

impl View for EVMIntent {
    type V = IntentView;

    open spec fn view(&self) -> IntentView {
        IntentView {
            initiator: self.initiator@,
            receiver: self.receiver@,
            input_asset: self.input_asset@,
            output_asset: self.output_asset@,
            max_fee: self.max_fee,
            origin: self.origin,
            nonce: self.nonce,
            timestamp: self.timestamp,
            ttl: self.ttl,
            amount: self.amount@,
            destinations: self.destinations@,
            data: self.data@,
        }
    }
}

/// A 32-byte big-endian word holding `v`.
pub open spec fn spec_word(v: nat) -> Seq<u8> {
    be_bytes_of(v, 32)
}

/// The destinations array body: one full word per destination domain id.
pub open spec fn spec_dest_words(d: Seq<u32>) -> Seq<u8>
    decreases d.len(),
{
    if d.len() == 0 {
        Seq::empty()
    } else {
        spec_dest_words(d.drop_last()) + spec_word(d.last() as nat)
    }
}

/// Zero padding that rounds `n` bytes up to the next 32-byte boundary.
pub open spec fn spec_pad_len(n: nat) -> nat {
    ((32 - (n % 32)) % 32) as nat
}

/// Byte offset, from the start of the struct head, of the destinations array.
pub open spec fn spec_dest_offset() -> nat {
    384
}

/// Byte offset, from the start of the struct head, of the opaque data field.
pub open spec fn spec_data_offset(ndest: nat) -> nat {
    384 + 32 + 32 * ndest
}

/// The tail region: length-prefixed destinations, then length-prefixed data
/// padded to a word boundary.
pub open spec fn spec_encode_tail(i: IntentView) -> Seq<u8> {
    spec_word(i.destinations.len()) + spec_dest_words(i.destinations) + spec_word(i.data.len())
        + i.data + zero_bytes(spec_pad_len(i.data.len()))
}

/// The twelve-word head: the four identities, the five numeric fields, the
/// amount word, and the two tail offsets.
pub open spec fn spec_encode_head(i: IntentView) -> Seq<u8> {
    i.initiator + i.receiver + i.input_asset + i.output_asset + spec_word(i.max_fee as nat)
        + spec_word(i.origin as nat) + spec_word(i.nonce as nat) + spec_word(i.timestamp as nat)
        + spec_word(i.ttl as nat) + i.amount + spec_word(spec_dest_offset()) + spec_word(
        spec_data_offset(i.destinations.len()),
    )
}

/// The canonical encoding of one intent: head then tail.
pub open spec fn spec_encode_intent(i: IntentView) -> Seq<u8> {
    spec_encode_head(i) + spec_encode_tail(i)
}

/// The encoding of a one-element intent array: offset word, length word,
/// element offset word, then the intent itself.
pub open spec fn spec_encode_intent_array(i: IntentView) -> Seq<u8> {
    spec_word(32) + spec_word(1) + spec_word(32) + spec_encode_head(i) + spec_encode_tail(i)
}

/// The outbound envelope: a message-type word, the offset of the dynamic
/// region, its length, and the encoded one-intent array.
pub open spec fn spec_encode_full(tag: u8, i: IntentView) -> Seq<u8> {
    spec_word(tag as nat) + spec_word(64) + spec_word(
        spec_encode_intent_array(i).len(),
    ) + spec_encode_intent_array(i)
}

pub proof fn lemma_spec_dest_words_len(d: Seq<u32>)
    ensures
        spec_dest_words(d).len() == 32 * d.len(),
    decreases d.len(),
{
    if d.len() > 0 {
        lemma_spec_dest_words_len(d.drop_last());
    }
}

/// Appends one 32-byte big-endian word holding `v` to `out`.
fn append_word(out: &mut Vec<u8>, v: u128)
    ensures
        final(out)@ == old(out)@ + spec_word(v as nat),
{
    let word = u256_to_32bytes(v);
    append_bytes(out, word.as_slice());
}

/// Encodes the tail region of one intent and returns it together with the
/// head-relative byte offsets of the destinations array and the data field.
pub fn encode_struct_tail(intent: &EVMIntent) -> (r: (Vec<u8>, u64, u64))
    requires
        intent.destinations@.len() <= MAX_INTENT_DESTINATIONS,
    ensures
        r.0@ == spec_encode_tail(intent@),
        r.1 == spec_dest_offset(),
        r.2 == spec_data_offset(intent.destinations@.len()),
{
    let destinations_offset: u64 = 384;
    let mut destinations_bytes: Vec<u8> = Vec::new();
    append_word(&mut destinations_bytes, intent.destinations.len() as u128);
    let ghost dests = intent.destinations@;
    let mut k: usize = 0;
    while k < intent.destinations.len()
        invariant
            k <= dests.len(),
            dests == intent.destinations@,
            dests.len() <= MAX_INTENT_DESTINATIONS,
            destinations_bytes@ == spec_word(dests.len()) + spec_dest_words(dests.take(k as int)),
        decreases dests.len() - k,
    {
        let val = intent.destinations[k];
        append_word(&mut destinations_bytes, val as u128);
        proof {
            let t = dests.take(k + 1);
            assert(t.drop_last() =~= dests.take(k as int));
            assert(t.last() == dests[k as int]);
            assert(spec_dest_words(t) == spec_dest_words(dests.take(k as int)) + spec_word(
                dests[k as int] as nat,
            ));
        }
        k += 1;
    }
    proof {
        assert(dests.take(dests.len() as int) =~= dests);
        lemma_spec_dest_words_len(dests);
    }

    let data_offset: u64 = destinations_offset + destinations_bytes.len() as u64;

    let mut data_bytes: Vec<u8> = Vec::new();
    append_word(&mut data_bytes, intent.data.len() as u128);
    append_bytes(&mut data_bytes, intent.data.as_slice());
    let padding: usize = (32 - (intent.data.len() % 32)) % 32;
    append_zero_bytes(&mut data_bytes, padding);

    let mut tail: Vec<u8> = Vec::new();
    append_bytes(&mut tail, destinations_bytes.as_slice());
    append_bytes(&mut tail, data_bytes.as_slice());
    proof {
        assert(tail@ =~= spec_encode_tail(intent@));
    }
    (tail, destinations_offset, data_offset)
}

/// Encodes the twelve-word head of one intent, given the two tail offsets.
fn encode_struct_head(intent: &EVMIntent, dest_offset: u64, data_offset: u64) -> (r: Vec<u8>)
    requires
        dest_offset == spec_dest_offset(),
        data_offset == spec_data_offset(intent.destinations@.len()),
    ensures
        r@ == spec_encode_head(intent@),
{
    let mut head: Vec<u8> = Vec::new();
    append_bytes(&mut head, intent.initiator.as_slice());
    append_bytes(&mut head, intent.receiver.as_slice());
    append_bytes(&mut head, intent.input_asset.as_slice());
    append_bytes(&mut head, intent.output_asset.as_slice());
    append_word(&mut head, intent.max_fee as u128);
    append_word(&mut head, intent.origin as u128);
    append_word(&mut head, intent.nonce as u128);
    append_word(&mut head, intent.timestamp as u128);
    append_word(&mut head, intent.ttl as u128);
    append_bytes(&mut head, intent.amount.as_slice());
    append_word(&mut head, dest_offset as u128);
    append_word(&mut head, data_offset as u128);
    proof {
        assert(head@ =~= spec_encode_head(intent@));
    }
    head
}

/// The canonical byte encoding of one intent: head, then tail.
pub fn encode_single_intent(intent: &EVMIntent) -> (r: Vec<u8>)
    requires
        intent.destinations@.len() <= MAX_INTENT_DESTINATIONS,
    ensures
        r@ == spec_encode_intent(intent@),
{
    let (tail, dest_offset, data_offset) = encode_struct_tail(intent);
    let head = encode_struct_head(intent, dest_offset, data_offset);
    let mut out: Vec<u8> = Vec::new();
    append_bytes(&mut out, head.as_slice());
    append_bytes(&mut out, tail.as_slice());
    proof {
        assert(out@ =~= spec_encode_intent(intent@));
    }
    out
}

/// Encodes a one-element array holding `intent`, as the counterpart domains
/// encode a dynamic array of one struct.
pub fn encode_array_of_one_intent(intent: &EVMIntent) -> (r: Vec<u8>)
    requires
        intent.destinations@.len() <= MAX_INTENT_DESTINATIONS,
    ensures
        r@ == spec_encode_intent_array(intent@),
{
    let mut out: Vec<u8> = Vec::new();
    append_word(&mut out, 32);
    append_word(&mut out, 1);
    append_word(&mut out, 32);
    let (tail, dest_offset, data_offset) = encode_struct_tail(intent);
    let head = encode_struct_head(intent, dest_offset, data_offset);
    append_bytes(&mut out, head.as_slice());
    append_bytes(&mut out, tail.as_slice());
    proof {
        assert(out@ =~= spec_encode_intent_array(intent@));
    }
    out
}

/// Wraps the one-intent array in the outbound envelope: a message-type word
/// and a length-prefixed dynamic region.
pub fn encode_full(message_type: MessageType, intent: &EVMIntent) -> (r: Vec<u8>)
    requires
        intent.destinations@.len() <= MAX_INTENT_DESTINATIONS,
    ensures
        r@ == spec_encode_full(message_type.as_byte_spec(), intent@),
{
    let inner_data = encode_array_of_one_intent(intent);
    let mut out: Vec<u8> = Vec::new();
    append_word(&mut out, message_type.as_byte() as u128);
    append_word(&mut out, 64);
    append_word(&mut out, inner_data.len() as u128);
    append_bytes(&mut out, inner_data.as_slice());
    proof {
        assert(out@ =~= spec_encode_full(message_type.as_byte_spec(), intent@));
    }
    out
}

} // verus!
