//! Little-endian encoding of 64-bit quantities.

use vstd::prelude::*;

verus! {

/// The number that eight bytes denote, least significant byte first.
pub open spec fn le_u64(bytes: Seq<u8>) -> int
    recommends
        bytes.len() == 8,
{
    bytes[0] + bytes[1] * 0x100 + bytes[2] * 0x1_0000 + bytes[3] * 0x100_0000 + bytes[4]
        * 0x1_0000_0000 + bytes[5] * 0x100_0000_0000 + bytes[6] * 0x1_0000_0000_0000 + bytes[7]
        * 0x100_0000_0000_0000
}

/// The eight bytes that denote `value`, least significant byte first.
pub open spec fn u64_le(value: u64) -> Seq<u8> {
    seq![
        (value % 0x100) as u8,
        (value / 0x100 % 0x100) as u8,
        (value / 0x1_0000 % 0x100) as u8,
        (value / 0x100_0000 % 0x100) as u8,
        (value / 0x1_0000_0000 % 0x100) as u8,
        (value / 0x100_0000_0000 % 0x100) as u8,
        (value / 0x1_0000_0000_0000 % 0x100) as u8,
        (value / 0x100_0000_0000_0000 % 0x100) as u8,
    ]
}

/// Dividing by a power of 256 is dividing by 256 that many times.
proof fn lemma_shift_by_bytes(value: int)
    requires
        0 <= value,
    ensures
        value / 0x1_0000 == value / 0x100 / 0x100,
        value / 0x100_0000 == value / 0x1_0000 / 0x100,
        value / 0x1_0000_0000 == value / 0x100_0000 / 0x100,
        value / 0x100_0000_0000 == value / 0x1_0000_0000 / 0x100,
        value / 0x1_0000_0000_0000 == value / 0x100_0000_0000 / 0x100,
        value / 0x100_0000_0000_0000 == value / 0x1_0000_0000_0000 / 0x100,
{
}

/// Decoding what was encoded gives the number back.
pub proof fn lemma_decode_encode(value: u64)
    ensures
        u64_le(value).len() == 8,
        le_u64(u64_le(value)) == value,
{
    lemma_shift_by_bytes(value as int);
    let q1 = value / 0x100;
    let q2 = q1 / 0x100;
    let q3 = q2 / 0x100;
    let q4 = q3 / 0x100;
    let q5 = q4 / 0x100;
    let q6 = q5 / 0x100;
    let q7 = q6 / 0x100;
    assert(q7 < 0x100);
    assert(value == value % 0x100 + 0x100 * q1);
    assert(q1 == q1 % 0x100 + 0x100 * q2);
    assert(q2 == q2 % 0x100 + 0x100 * q3);
    assert(q3 == q3 % 0x100 + 0x100 * q4);
    assert(q4 == q4 % 0x100 + 0x100 * q5);
    assert(q5 == q5 % 0x100 + 0x100 * q6);
    assert(q6 == q6 % 0x100 + 0x100 * q7);
}

/// Eight bytes denote a number that fits in 64 bits, and encoding it gives
/// the bytes back.
pub proof fn lemma_encode_decode(bytes: Seq<u8>)
    requires
        bytes.len() == 8,
    ensures
        0 <= le_u64(bytes) <= u64::MAX,
        u64_le(le_u64(bytes) as u64) == bytes,
{
    let value = le_u64(bytes);
    lemma_shift_by_bytes(value);
    let q7 = bytes[7] as int;
    let q6 = bytes[6] + 0x100 * q7;
    let q5 = bytes[5] + 0x100 * q6;
    let q4 = bytes[4] + 0x100 * q5;
    let q3 = bytes[3] + 0x100 * q4;
    let q2 = bytes[2] + 0x100 * q3;
    let q1 = bytes[1] + 0x100 * q2;
    assert(value == bytes[0] + 0x100 * q1);
    assert(value / 0x100 == q1 && value % 0x100 == bytes[0]);
    assert(q1 / 0x100 == q2 && q1 % 0x100 == bytes[1]);
    assert(q2 / 0x100 == q3 && q2 % 0x100 == bytes[2]);
    assert(q3 / 0x100 == q4 && q3 % 0x100 == bytes[3]);
    assert(q4 / 0x100 == q5 && q4 % 0x100 == bytes[4]);
    assert(q5 / 0x100 == q6 && q5 % 0x100 == bytes[5]);
    assert(q6 / 0x100 == q7 && q6 % 0x100 == bytes[6]);
    assert(q7 % 0x100 == bytes[7]);
    assert(u64_le(value as u64) =~= bytes);
}

/// Reads the 64-bit quantity that starts at `offset` in `src`.
pub fn read_u64(src: &[u8], offset: usize) -> (value: u64)
    requires
        offset + 8 <= src@.len(),
    ensures
        value == le_u64(src@.subrange(offset as int, offset + 8)),
{
    // The length of a slice is a `usize`, so no index up to it overflows.
    let _len: usize = src.len();
    let b0: u64 = src[offset] as u64;
    let b1: u64 = src[offset + 1] as u64;
    let b2: u64 = src[offset + 2] as u64;
    let b3: u64 = src[offset + 3] as u64;
    let b4: u64 = src[offset + 4] as u64;
    let b5: u64 = src[offset + 5] as u64;
    let b6: u64 = src[offset + 6] as u64;
    let b7: u64 = src[offset + 7] as u64;
    b0 + b1 * 0x100 + b2 * 0x1_0000 + b3 * 0x100_0000 + b4 * 0x1_0000_0000 + b5 * 0x100_0000_0000
        + b6 * 0x1_0000_0000_0000 + b7 * 0x100_0000_0000_0000
}

/// Appends the eight bytes of `value` to `out`.
pub fn push_u64(out: &mut Vec<u8>, value: u64)
    ensures
        final(out)@ == old(out)@ + u64_le(value),
{
    out.push((value % 0x100) as u8);
    out.push((value / 0x100 % 0x100) as u8);
    out.push((value / 0x1_0000 % 0x100) as u8);
    out.push((value / 0x100_0000 % 0x100) as u8);
    out.push((value / 0x1_0000_0000 % 0x100) as u8);
    out.push((value / 0x100_0000_0000 % 0x100) as u8);
    out.push((value / 0x1_0000_0000_0000 % 0x100) as u8);
    out.push((value / 0x100_0000_0000_0000 % 0x100) as u8);
    assert(out@ =~= old(out)@ + u64_le(value));
}

} // verus!
