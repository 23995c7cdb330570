use everclear_spoke::bytes::{read_u32_be, read_u64_be, u256_to_32bytes, u32_to_4bytes, u64_to_u256_be};
use everclear_spoke::hashing::compute_intent_hash;
use everclear_spoke::intent::{
    encode_array_of_one_intent, encode_full, encode_single_intent, encode_struct_tail, EVMIntent,
};
use everclear_spoke::messages::MessageType;

fn sample_intent(data: Vec<u8>) -> EVMIntent {
    EVMIntent {
        initiator: [0xAA; 32],
        receiver: [0xBB; 32],
        input_asset: [0xCC; 32],
        output_asset: [0xDD; 32],
        max_fee: 500,
        origin: 1_399_811_149,
        nonce: 1,
        timestamp: 1_700_000_000,
        ttl: 3_600,
        amount: u64_to_u256_be(1_000_000_000_000_000_000),
        destinations: vec![25_327],
        data,
    }
}

fn word(bytes: &[u8], index: usize) -> &[u8] {
    &bytes[32 * index..32 * (index + 1)]
}

fn be_word_u64(v: u64) -> [u8; 32] {
    let mut w = [0u8; 32];
    w[24..32].copy_from_slice(&v.to_be_bytes());
    w
}

#[test]
fn word_conversions_are_big_endian() {
    let w = u256_to_32bytes(0x0102030405060708090A0B0C0D0E0F10u128);
    assert_eq!(&w[..16], &[0u8; 16]);
    assert_eq!(
        &w[16..],
        &[1, 2, 3, 4, 5, 6, 7, 8, 9, 10, 11, 12, 13, 14, 15, 16]
    );

    let w64 = u64_to_u256_be(0xDEADBEEF);
    assert_eq!(&w64[..28], &[0u8; 28]);
    assert_eq!(&w64[28..], &[0xDE, 0xAD, 0xBE, 0xEF]);

    assert_eq!(u32_to_4bytes(0x01020304), [1, 2, 3, 4]);
}

#[test]
fn byte_readers_invert_writers() {
    let w = u64_to_u256_be(987_654_321_012_345);
    assert_eq!(read_u64_be(&w, 24), 987_654_321_012_345);
    let four = u32_to_4bytes(77_777);
    assert_eq!(read_u32_be(&four, 0), 77_777);
}

#[test]
fn single_intent_encoding_layout() {
    let intent = sample_intent(vec![]);
    let encoded = encode_single_intent(&intent);
    assert_eq!(encoded.len(), 480);
    assert_eq!(word(&encoded, 0), [0xAA; 32]);
    assert_eq!(word(&encoded, 1), [0xBB; 32]);
    assert_eq!(word(&encoded, 2), [0xCC; 32]);
    assert_eq!(word(&encoded, 3), [0xDD; 32]);
    assert_eq!(word(&encoded, 4), be_word_u64(500));
    assert_eq!(word(&encoded, 5), be_word_u64(1_399_811_149));
    assert_eq!(word(&encoded, 6), be_word_u64(1));
    assert_eq!(word(&encoded, 7), be_word_u64(1_700_000_000));
    assert_eq!(word(&encoded, 8), be_word_u64(3_600));
    // The amount word carries the normalized value exactly.
    assert_eq!(word(&encoded, 9), be_word_u64(1_000_000_000_000_000_000));
    assert_eq!(word(&encoded, 10), be_word_u64(384));
    assert_eq!(word(&encoded, 11), be_word_u64(384 + 32 + 32));
    // Tail: destinations length, one destination word, empty data length.
    assert_eq!(word(&encoded, 12), be_word_u64(1));
    assert_eq!(word(&encoded, 13), be_word_u64(25_327));
    assert_eq!(word(&encoded, 14), be_word_u64(0));
}

#[test]
fn data_is_length_prefixed_and_padded() {
    let intent = sample_intent(vec![9, 8, 7]);
    let (tail, dest_offset, data_offset) = encode_struct_tail(&intent);
    assert_eq!(dest_offset, 384);
    assert_eq!(data_offset, 448);
    // length word of destinations, destination word, data length word,
    // then three data bytes padded with 29 zeros.
    assert_eq!(tail.len(), 32 + 32 + 32 + 32);
    assert_eq!(word(&tail, 2), be_word_u64(3));
    assert_eq!(&tail[96..99], &[9, 8, 7]);
    assert_eq!(&tail[99..128], &[0u8; 29]);
}

#[test]
fn one_intent_array_encoding_prefixes_three_words() {
    let intent = sample_intent(vec![]);
    let encoded = encode_array_of_one_intent(&intent);
    assert_eq!(encoded.len(), 96 + 480);
    assert_eq!(word(&encoded, 0), be_word_u64(32));
    assert_eq!(word(&encoded, 1), be_word_u64(1));
    assert_eq!(word(&encoded, 2), be_word_u64(32));
    assert_eq!(&encoded[96..], &encode_single_intent(&intent)[..]);
}

#[test]
fn full_envelope_wraps_tagged_length_prefixed_array() {
    let intent = sample_intent(vec![]);
    let envelope = encode_full(MessageType::Intent, &intent);
    assert_eq!(envelope.len(), 96 + 576);
    assert_eq!(word(&envelope, 0), be_word_u64(0));
    assert_eq!(word(&envelope, 1), be_word_u64(64));
    assert_eq!(word(&envelope, 2), be_word_u64(576));
    assert_eq!(&envelope[96..], &encode_array_of_one_intent(&intent)[..]);
}

#[test]
fn intent_hash_is_deterministic() {
    let a = compute_intent_hash(&sample_intent(vec![1, 2]));
    let b = compute_intent_hash(&sample_intent(vec![1, 2]));
    assert_eq!(a, b);
}

#[test]
fn intent_hash_depends_on_the_fields() {
    let base = sample_intent(vec![]);
    let mut other = sample_intent(vec![]);
    other.nonce = 2;
    let ha = compute_intent_hash(&base);
    let hb = compute_intent_hash(&other);
    assert_ne!(ha, hb);
    // The digest is not a copy of any encoded word.
    let encoded = encode_single_intent(&base);
    assert_ne!(&ha[..], &encoded[..32]);
    assert_ne!(ha, [0u8; 32]);
}

#[test]
fn message_type_bytes_round_trip() {
    assert_eq!(MessageType::Intent.as_byte(), 0);
    assert_eq!(MessageType::Fill.as_byte(), 1);
    assert_eq!(MessageType::Settlement.as_byte(), 2);
    assert_eq!(MessageType::VarUpdate.as_byte(), 3);
    assert!(matches!(MessageType::from_byte(2), Ok(MessageType::Settlement)));
    assert_eq!(MessageType::from_byte(9), Err(9));
}
