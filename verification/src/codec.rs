//! The fixed-width little-endian encoding that records and instruction
//! arguments share.

use crate::pubkey::Pubkey;
use vstd::prelude::*;

verus! {

/// The two bytes of `x`, least significant first.
pub open spec fn u16_le(x: u16) -> Seq<u8> {
    seq![(x % 256) as u8, (x / 256) as u8]
}

/// The eight bytes of `x`, least significant first.
pub open spec fn u64_le(x: u64) -> Seq<u8> {
    seq![
        (x % 256) as u8,
        (x / 0x100 % 256) as u8,
        (x / 0x1_0000 % 256) as u8,
        (x / 0x100_0000 % 256) as u8,
        (x / 0x1_0000_0000 % 256) as u8,
        (x / 0x100_0000_0000 % 256) as u8,
        (x / 0x1_0000_0000_0000 % 256) as u8,
        (x / 0x100_0000_0000_0000) as u8,
    ]
}

/// The number whose two least significant bytes `bytes` starts with.
pub open spec fn le_u16(bytes: Seq<u8>) -> u16
    recommends
        bytes.len() >= 2,
{
    (bytes[0] + bytes[1] * 0x100) as u16
}

/// The number whose eight bytes, least significant first, `bytes` starts with.
pub open spec fn le_u64(bytes: Seq<u8>) -> u64
    recommends
        bytes.len() >= 8,
{
    (bytes[0] + bytes[1] * 0x100 + bytes[2] * 0x1_0000 + bytes[3] * 0x100_0000 + bytes[4]
        * 0x1_0000_0000 + bytes[5] * 0x100_0000_0000 + bytes[6] * 0x1_0000_0000_0000 + bytes[7]
        * 0x100_0000_0000_0000) as u64
}

/// Decoding undoes encoding.
pub proof fn lemma_u16_round_trip(x: u16)
    ensures
        u16_le(x).len() == 2,
        le_u16(u16_le(x)) == x,
{
}

/// Encoding undoes decoding.
pub proof fn lemma_u16_bytes_round_trip(bytes: Seq<u8>)
    requires
        bytes.len() == 2,
    ensures
        u16_le(le_u16(bytes)) == bytes,
{
    assert(u16_le(le_u16(bytes)) =~= bytes);
}

/// Dividing by a power of 256 is dividing by 256 that many times.
proof fn lemma_u64_quotients(x: u64)
    ensures
        x / 0x1_0000 == x / 0x100 / 0x100,
        x / 0x100_0000 == x / 0x1_0000 / 0x100,
        x / 0x1_0000_0000 == x / 0x100_0000 / 0x100,
        x / 0x100_0000_0000 == x / 0x1_0000_0000 / 0x100,
        x / 0x1_0000_0000_0000 == x / 0x100_0000_0000 / 0x100,
        x / 0x100_0000_0000_0000 == x / 0x1_0000_0000_0000 / 0x100,
        x / 0x100_0000_0000_0000 < 0x100,
{
    assert(x / 0x1_0000 == x / 0x100 / 0x100) by (bit_vector);
    assert(x / 0x100_0000 == x / 0x1_0000 / 0x100) by (bit_vector);
    assert(x / 0x1_0000_0000 == x / 0x100_0000 / 0x100) by (bit_vector);
    assert(x / 0x100_0000_0000 == x / 0x1_0000_0000 / 0x100) by (bit_vector);
    assert(x / 0x1_0000_0000_0000 == x / 0x100_0000_0000 / 0x100) by (bit_vector);
    assert(x / 0x100_0000_0000_0000 == x / 0x1_0000_0000_0000 / 0x100) by (bit_vector);
    assert(x / 0x100_0000_0000_0000 < 0x100) by (bit_vector);
}

/// Decoding undoes encoding.
pub proof fn lemma_u64_round_trip(x: u64)
    ensures
        u64_le(x).len() == 8,
        le_u64(u64_le(x)) == x,
{
    lemma_u64_quotients(x);
    let q1 = x / 0x100;
    let q2 = x / 0x1_0000;
    let q3 = x / 0x100_0000;
    let q4 = x / 0x1_0000_0000;
    let q5 = x / 0x100_0000_0000;
    let q6 = x / 0x1_0000_0000_0000;
    let q7 = x / 0x100_0000_0000_0000;
    assert(x == x % 256 + 0x100 * q1);
    assert(q1 == q1 % 256 + 0x100 * q2);
    assert(q2 == q2 % 256 + 0x100 * q3);
    assert(q3 == q3 % 256 + 0x100 * q4);
    assert(q4 == q4 % 256 + 0x100 * q5);
    assert(q5 == q5 % 256 + 0x100 * q6);
    assert(q6 == q6 % 256 + 0x100 * q7);
}

/// Encoding undoes decoding.
pub proof fn lemma_u64_bytes_round_trip(bytes: Seq<u8>)
    requires
        bytes.len() == 8,
    ensures
        u64_le(le_u64(bytes)) == bytes,
{
    let r7: int = bytes[7] as int;
    let r6: int = bytes[6] + 0x100 * r7;
    let r5: int = bytes[5] + 0x100 * r6;
    let r4: int = bytes[4] + 0x100 * r5;
    let r3: int = bytes[3] + 0x100 * r4;
    let r2: int = bytes[2] + 0x100 * r3;
    let r1: int = bytes[1] + 0x100 * r2;
    let r0: int = bytes[0] + 0x100 * r1;
    let x = le_u64(bytes);
    assert(x == r0);
    lemma_u64_quotients(x);
    assert(x / 0x100 == r1);
    assert(x / 0x1_0000 == r2);
    assert(x / 0x100_0000 == r3);
    assert(x / 0x1_0000_0000 == r4);
    assert(x / 0x100_0000_0000 == r5);
    assert(x / 0x1_0000_0000_0000 == r6);
    assert(x / 0x100_0000_0000_0000 == r7);
    assert(u64_le(x) =~= bytes);
}

/// Appends the encoding of `x` to `out`.
pub fn put_u16(out: &mut Vec<u8>, x: u16)
    ensures
        final(out)@ == old(out)@ + u16_le(x),
{
    out.push((x % 256) as u8);
    out.push((x / 256) as u8);
    proof {
        assert(out@ =~= old(out)@ + u16_le(x));
    }
}

/// Appends the encoding of `x` to `out`.
pub fn put_u64(out: &mut Vec<u8>, x: u64)
    ensures
        final(out)@ == old(out)@ + u64_le(x),
{
    out.push((x % 256) as u8);
    out.push((x / 0x100 % 256) as u8);
    out.push((x / 0x1_0000 % 256) as u8);
    out.push((x / 0x100_0000 % 256) as u8);
    out.push((x / 0x1_0000_0000 % 256) as u8);
    out.push((x / 0x100_0000_0000 % 256) as u8);
    out.push((x / 0x1_0000_0000_0000 % 256) as u8);
    out.push((x / 0x100_0000_0000_0000) as u8);
    proof {
        assert(out@ =~= old(out)@ + u64_le(x));
    }
}

/// Appends the 32 bytes of `key` to `out`.
pub fn put_key(out: &mut Vec<u8>, key: &Pubkey)
    ensures
        final(out)@ == old(out)@ + key@,
{
    let mut i: usize = 0;
    while i < 32
        invariant
            i <= 32,
            out@ == old(out)@ + key@.subrange(0, i as int),
        decreases 32 - i,
    {
        out.push(key.bytes[i]);
        proof {
            assert(out@ =~= old(out)@ + key@.subrange(0, i + 1));
        }
        i += 1;
    }
    proof {
        assert(key@.subrange(0, 32) =~= key@);
    }
}

/// Appends the eight bytes of `mark` to `out`.
pub fn put_mark(out: &mut Vec<u8>, mark: &[u8; 8])
    ensures
        final(out)@ == old(out)@ + mark@,
{
    let mut i: usize = 0;
    while i < 8
        invariant
            i <= 8,
            out@ == old(out)@ + mark@.subrange(0, i as int),
        decreases 8 - i,
    {
        out.push(mark[i]);
        proof {
            assert(out@ =~= old(out)@ + mark@.subrange(0, i + 1));
        }
        i += 1;
    }
    proof {
        assert(mark@.subrange(0, 8) =~= mark@);
    }
}

/// Reads the number encoded in the two bytes of `buf` from `at` on.
pub(crate) fn get_u16(buf: &[u8], at: usize) -> (x: u16)
    requires
        at + 2 <= buf.len(),
    ensures
        x == le_u16(buf@.subrange(at as int, at + 2)),
{
    let low: u16 = buf[at] as u16;
    let high: u16 = buf[at + 1] as u16;
    low + high * 0x100
}

/// Reads the number encoded in the eight bytes of `buf` from `at` on.
pub(crate) fn get_u64(buf: &[u8], at: usize) -> (x: u64)
    requires
        at + 8 <= buf.len(),
    ensures
        x == le_u64(buf@.subrange(at as int, at + 8)),
{
    let b0: u64 = buf[at] as u64;
    let b1: u64 = buf[at + 1] as u64;
    let b2: u64 = buf[at + 2] as u64;
    let b3: u64 = buf[at + 3] as u64;
    let b4: u64 = buf[at + 4] as u64;
    let b5: u64 = buf[at + 5] as u64;
    let b6: u64 = buf[at + 6] as u64;
    let b7: u64 = buf[at + 7] as u64;
    b0 + b1 * 0x100 + b2 * 0x1_0000 + b3 * 0x100_0000 + b4 * 0x1_0000_0000 + b5
        * 0x100_0000_0000 + b6 * 0x1_0000_0000_0000 + b7 * 0x100_0000_0000_0000
}

/// Reads the identifier held in the 32 bytes of `buf` from `at` on.
pub(crate) fn get_key(buf: &[u8], at: usize) -> (key: Pubkey)
    requires
        at + 32 <= buf.len(),
    ensures
        key@ == buf@.subrange(at as int, at + 32),
{
    let mut bytes: [u8; 32] = [0u8; 32];
    let mut i: usize = 0;
    while i < 32
        invariant
            i <= 32,
            at + 32 <= buf.len(),
            forall|j: int| 0 <= j < i ==> bytes[j] == buf@[at + j],
        decreases 32 - i,
    {
        bytes[i] = buf[at + i];
        i += 1;
    }
    let key = Pubkey { bytes };
    proof {
        assert(key@ =~= buf@.subrange(at as int, at + 32));
    }
    key
}

} // verus!
