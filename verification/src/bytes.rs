//! Big-endian byte words and the small byte-level helpers that the canonical
//! encoding and the inbound message parser are built from.
use vstd::prelude::*;

verus! {

use vstd::arithmetic::div_mod::{
    lemma_div_denominator,
};

/// 256 to the power `k`.
pub open spec fn pow256(k: nat) -> nat
    decreases k,
{
    if k == 0 {
        1
    } else {
        256 * pow256((k - 1) as nat)
    }
}

/// The `n`-byte big-endian representation of `v` (mod 256^n).
pub open spec fn be_bytes_of(v: nat, n: nat) -> Seq<u8>
    decreases n,
{
    if n == 0 {
        Seq::empty()
    } else {
        be_bytes_of(v / 256, (n - 1) as nat).push((v % 256) as u8)
    }
}

/// The value of a big-endian byte string.
pub open spec fn be_nat_of(s: Seq<u8>) -> nat
    decreases s.len(),
{
    if s.len() == 0 {
        0
    } else {
        (be_nat_of(s.drop_last()) * 256 + s.last()) as nat
    }
}

/// `n` zero bytes.
pub open spec fn zero_bytes(n: nat) -> Seq<u8> {
    Seq::new(n, |i: int| 0u8)
}

pub broadcast proof fn lemma_be_bytes_of_len(v: nat, n: nat)
    ensures
        (#[trigger] be_bytes_of(v, n)).len() == n,
    decreases n,
{
    if n > 0 {
        lemma_be_bytes_of_len(v / 256, (n - 1) as nat);
    }
}

pub proof fn lemma_pow256_pos(k: nat)
    ensures
        pow256(k) >= 1,
    decreases k,
{
    if k > 0 {
        lemma_pow256_pos((k - 1) as nat);
    }
}

/// Byte `i` of the big-endian representation holds digit `n - 1 - i`.
pub proof fn lemma_be_bytes_of_index(v: nat, n: nat, i: int)
    requires
        0 <= i < n,
    ensures
        be_bytes_of(v, n).len() == n,
        be_bytes_of(v, n)[i] == ((v / pow256((n - 1 - i) as nat)) % 256) as u8,
    decreases n,
{
    lemma_be_bytes_of_len(v, n);
    if i == n - 1 {
        assert(pow256(0) == 1);
        assert(v / 1 == v);
    } else {
        lemma_be_bytes_of_index(v / 256, (n - 1) as nat, i);
        let k = (n - 2 - i) as nat;
        lemma_pow256_pos(k);
        lemma_div_denominator(v as int, 256, pow256(k) as int);
        assert(256 * pow256(k) == pow256((k + 1) as nat));
        assert((v / 256) / pow256(k) == v / pow256((n - 1 - i) as nat));
    }
}

/// Values below 256^m have zero bytes everywhere left of the last `m` bytes.
pub proof fn lemma_be_bytes_of_high_zero(v: nat, n: nat, i: int)
    requires
        0 <= i < n,
        v < pow256((n - 1 - i) as nat),
    ensures
        be_bytes_of(v, n).len() == n,
        be_bytes_of(v, n)[i] == 0u8,
{
    lemma_be_bytes_of_index(v, n, i);
    let p = pow256((n - 1 - i) as nat);
    lemma_pow256_pos((n - 1 - i) as nat);
    assert(v / p == 0) by {
        vstd::arithmetic::div_mod::lemma_basic_div(v as int, p as int);
    }
}

/// Appends `src` to `out`.
pub fn append_bytes(out: &mut Vec<u8>, src: &[u8])
    ensures
        final(out)@ == old(out)@ + src@,
{
    let mut i: usize = 0;
    while i < src.len()
        invariant
            i <= src@.len(),
            out@ == old(out)@ + src@.take(i as int),
        decreases src@.len() - i,
    {
        out.push(src[i]);
        assert(src@.take(i + 1) == src@.take(i as int).push(src@[i as int]));
        i += 1;
    }
    assert(src@.take(src@.len() as int) == src@);
}

/// Appends `n` zero bytes to `out`.
pub fn append_zero_bytes(out: &mut Vec<u8>, n: usize)
    ensures
        final(out)@ == old(out)@ + zero_bytes(n as nat),
{
    let mut i: usize = 0;
    while i < n
        invariant
            i <= n,
            out@ == old(out)@ + zero_bytes(i as nat),
        decreases n - i,
    {
        out.push(0u8);
        assert(zero_bytes((i + 1) as nat) == zero_bytes(i as nat).push(0u8));
        i += 1;
    }
}

/// Writes `val` into a 32-byte word, big-endian, zero-extended on the left.
pub fn u256_to_32bytes(val: u128) -> (r: [u8; 32])
    ensures
        r@ == be_bytes_of(val as nat, 32),
{
    let mut word = [0u8; 32];
    let mut v: u128 = val;
    let mut i: usize = 0;
    proof {
        assert(pow256(0) == 1);
    }
    while i < 16
        invariant
            i <= 16,
            v as nat == val as nat / pow256(i as nat),
            word@.len() == 32,
            forall|j: int|
                0 <= j < 32 ==> word@[j] == (if 32 - i <= j {
                    be_bytes_of(val as nat, 32)[j]
                } else {
                    0u8
                }),
        decreases 16 - i,
    {
        proof {
            lemma_be_bytes_of_index(val as nat, 32, 31 - i);
            assert((v % 256) as u8 == be_bytes_of(val as nat, 32)[31 - i]);
            lemma_pow256_pos(i as nat);
            lemma_div_denominator(val as int, pow256(i as nat) as int, 256);
            assert(pow256(i as nat) * 256 == 256 * pow256(i as nat));
            assert(pow256((i + 1) as nat) == 256 * pow256(i as nat));
        }
        word[31 - i] = (v % 256) as u8;
        v = v / 256;
        i += 1;
    }
    proof {
        assert forall|j: int| 0 <= j < 16 implies be_bytes_of(val as nat, 32)[j] == 0u8 by {
            assert(val < pow256(16)) by {
                lemma_pow256_16();
            }
            lemma_pow256_increases(16, (31 - j) as nat);
            lemma_be_bytes_of_high_zero(val as nat, 32, j);
        }
        lemma_be_bytes_of_len(val as nat, 32);
        assert(word@ =~= be_bytes_of(val as nat, 32));
    }
    word
}

/// Writes `val` into a 32-byte word, big-endian, zero-extended on the left.
pub fn u64_to_u256_be(val: u64) -> (r: [u8; 32])
    ensures
        r@ == be_bytes_of(val as nat, 32),
{
    u256_to_32bytes(val as u128)
}

/// Writes `val` into four bytes, big-endian.
pub fn u32_to_4bytes(val: u32) -> (r: [u8; 4])
    ensures
        r@ == be_bytes_of(val as nat, 4),
{
    let mut word = [0u8; 4];
    let mut v: u32 = val;
    let mut i: usize = 0;
    proof {
        assert(pow256(0) == 1);
    }
    while i < 4
        invariant
            i <= 4,
            v as nat == val as nat / pow256(i as nat),
            word@.len() == 4,
            forall|j: int|
                0 <= j < 4 ==> word@[j] == (if 4 - i <= j {
                    be_bytes_of(val as nat, 4)[j]
                } else {
                    0u8
                }),
        decreases 4 - i,
    {
        proof {
            lemma_be_bytes_of_index(val as nat, 4, 3 - i);
            assert((v % 256) as u8 == be_bytes_of(val as nat, 4)[3 - i]);
            lemma_pow256_pos(i as nat);
            lemma_div_denominator(val as int, pow256(i as nat) as int, 256);
            assert(pow256(i as nat) * 256 == 256 * pow256(i as nat));
            assert(pow256((i + 1) as nat) == 256 * pow256(i as nat));
        }
        word[3 - i] = (v % 256) as u8;
        v = v / 256;
        i += 1;
    }
    proof {
        lemma_be_bytes_of_len(val as nat, 4);
        assert(word@ =~= be_bytes_of(val as nat, 4));
    }
    word
}

pub proof fn lemma_pow256_16()
    ensures
        pow256(16) == 0x1_0000_0000_0000_0000_0000_0000_0000_0000,
{
    reveal_with_fuel(pow256, 17);
}

pub proof fn lemma_pow256_8()
    ensures
        pow256(8) == 0x1_0000_0000_0000_0000,
{
    reveal_with_fuel(pow256, 9);
}

pub proof fn lemma_pow256_increases(a: nat, b: nat)
    requires
        a <= b,
    ensures
        pow256(a) <= pow256(b),
    decreases b,
{
    if a < b {
        lemma_pow256_increases(a, (b - 1) as nat);
        lemma_pow256_pos((b - 1) as nat);
    }
}

/// Reads a big-endian u64 from the 8 bytes of `bytes` starting at `start`.
pub fn read_u64_be(bytes: &[u8], start: usize) -> (r: u64)
    requires
        start + 8 <= bytes@.len(),
    ensures
        r as nat == be_nat_of(bytes@.subrange(start as int, start as int + 8)),
{
    let n: usize = bytes.len();
    let mut v: u64 = 0;
    let mut i: usize = 0;
    while i < 8
        invariant
            i <= 8,
            n == bytes@.len(),
            start + 8 <= n,
            v as nat == be_nat_of(bytes@.subrange(start as int, start as int + i)),
            (v as nat) < pow256(i as nat),
        decreases 8 - i,
    {
        proof {
            let pre = bytes@.subrange(start as int, start as int + i);
            let ext = bytes@.subrange(start as int, start as int + i + 1);
            assert(ext.drop_last() =~= pre);
            assert(ext.last() == bytes@[start as int + i]);
            lemma_pow256_increases((i + 1) as nat, 8);
            lemma_pow256_8();
            assert(v as nat * 256 + bytes@[start as int + i] < pow256((i + 1) as nat)) by {
                assert(pow256((i + 1) as nat) == 256 * pow256(i as nat));
                assert(v as nat <= pow256(i as nat) - 1);
                assert(v as nat * 256 <= (pow256(i as nat) - 1) * 256) by (nonlinear_arith)
                    requires
                        v as nat <= pow256(i as nat) - 1,
                ;
            }
        }
        v = v * 256 + (bytes[start + i] as u64);
        i += 1;
    }
    v
}

/// Reads a big-endian u32 from the 4 bytes of `bytes` starting at `start`.
pub fn read_u32_be(bytes: &[u8], start: usize) -> (r: u32)
    requires
        start + 4 <= bytes@.len(),
    ensures
        r as nat == be_nat_of(bytes@.subrange(start as int, start as int + 4)),
{
    let n: usize = bytes.len();
    let mut v: u32 = 0;
    let mut i: usize = 0;
    while i < 4
        invariant
            i <= 4,
            n == bytes@.len(),
            start + 4 <= n,
            v as nat == be_nat_of(bytes@.subrange(start as int, start as int + i)),
            (v as nat) < pow256(i as nat),
        decreases 4 - i,
    {
        proof {
            let pre = bytes@.subrange(start as int, start as int + i);
            let ext = bytes@.subrange(start as int, start as int + i + 1);
            assert(ext.drop_last() =~= pre);
            assert(ext.last() == bytes@[start as int + i]);
            reveal_with_fuel(pow256, 5);
            lemma_pow256_increases((i + 1) as nat, 4);
            assert(v as nat * 256 + bytes@[start as int + i] < pow256((i + 1) as nat)) by {
                assert(pow256((i + 1) as nat) == 256 * pow256(i as nat));
                assert(v as nat <= pow256(i as nat) - 1);
                assert(v as nat * 256 <= (pow256(i as nat) - 1) * 256) by (nonlinear_arith)
                    requires
                        v as nat <= pow256(i as nat) - 1,
                ;
            }
        }
        v = v * 256 + (bytes[start + i] as u32);
        i += 1;
    }
    v
}

/// Copies the 32 bytes of `bytes` starting at `start` into a fresh word.
pub fn read_bytes32(bytes: &[u8], start: usize) -> (r: [u8; 32])
    requires
        start + 32 <= bytes@.len(),
    ensures
        r@ == bytes@.subrange(start as int, start as int + 32),
{
    let n: usize = bytes.len();
    let mut word = [0u8; 32];
    let mut i: usize = 0;
    while i < 32
        invariant
            i <= 32,
            n == bytes@.len(),
            start + 32 <= n,
            word@.len() == 32,
            forall|j: int| 0 <= j < i ==> word@[j] == bytes@[start + j],
        decreases 32 - i,
    {
        word[i] = bytes[start + i];
        i += 1;
    }
    proof {
        assert(word@ =~= bytes@.subrange(start as int, start as int + 32));
    }
    word
}

/// Whether two 32-byte identities are equal.
pub fn bytes32_eq(a: &[u8; 32], b: &[u8; 32]) -> (r: bool)
    ensures
        r == (a@ == b@),
{
    let mut i: usize = 0;
    while i < 32
        invariant
            i <= 32,
            forall|j: int| 0 <= j < i ==> a@[j] == b@[j],
        decreases 32 - i,
    {
        if a[i] != b[i] {
            return false;
        }
        i += 1;
    }
    proof {
        assert(a@ =~= b@);
    }
    true
}

} // verus!
