//! Intent identity: a one-way 32-byte digest of the canonical encoding.
use tiny_keccak::{Hasher, Keccak};
use vstd::prelude::*;

verus! {

use crate::intent::{spec_encode_intent, EVMIntent, IntentView, MAX_INTENT_DESTINATIONS};

/// The keccak-256 digest of a byte string.  The digest is a function of the
/// input bytes alone; nothing here states what its value is.
pub uninterp spec fn keccak256_of(data: Seq<u8>) -> Seq<u8>;

/// Relies on tiny_keccak's `Keccak::v256` hasher: absorbing `data` and
/// squeezing 32 bytes yields the keccak-256 digest, a deterministic function
/// of the input bytes alone.
#[verifier::external_body]
fn keccak_256(data: &[u8]) -> (r: [u8; 32])
    ensures
        r@ == keccak256_of(data@),
{
    let mut hasher = Keccak::v256();
    hasher.update(data);
    let mut output = [0u8; 32];
    hasher.finalize(&mut output);
    output
}

/// The identity of an intent: the digest of its canonical encoding.
pub open spec fn spec_intent_hash(i: IntentView) -> Seq<u8> {
    keccak256_of(spec_encode_intent(i))
}

/// Computes the global identity of `intent`: the keccak-256 digest of its
/// canonical encoding.
pub fn compute_intent_hash(intent: &EVMIntent) -> (r: [u8; 32])
    requires
        intent.destinations@.len() <= MAX_INTENT_DESTINATIONS,
    ensures
        r@ == spec_intent_hash(intent@),
{
    let encoded = crate::intent::encode_single_intent(intent);
    keccak_256(encoded.as_slice())
}

/// Determinism of the intent identity: two intents whose fields agree have
/// the same hash, whenever and in whatever order the hashes are computed.
pub proof fn lemma_intent_hash_deterministic(a: EVMIntent, b: EVMIntent)
    requires
        a@ == b@,
    ensures
        spec_intent_hash(a@) == spec_intent_hash(b@),
{
}

} // verus!
