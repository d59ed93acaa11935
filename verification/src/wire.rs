//! Fixed-width integers on the wire.

use vstd::prelude::*;

verus! {

/// The eight bytes of `x`, least significant first.
pub open spec fn u64_le(x: u64) -> Seq<u8> {
    seq![
        (x % 0x100) as u8,
        (x / 0x100 % 0x100) as u8,
        (x / 0x1_0000 % 0x100) as u8,
        (x / 0x100_0000 % 0x100) as u8,
        (x / 0x1_0000_0000 % 0x100) as u8,
        (x / 0x100_0000_0000 % 0x100) as u8,
        (x / 0x1_0000_0000_0000 % 0x100) as u8,
        (x / 0x100_0000_0000_0000 % 0x100) as u8,
    ]
}

/// The number that eight bytes spell, least significant first.
pub open spec fn u64_from_le(b: Seq<u8>) -> int
    recommends
        b.len() == 8,
{
    b[0] + b[1] * 0x100 + b[2] * 0x1_0000 + b[3] * 0x100_0000 + b[4] * 0x1_0000_0000 + b[5]
        * 0x100_0000_0000 + b[6] * 0x1_0000_0000_0000 + b[7] * 0x100_0000_0000_0000
}

/// The four bytes of `x`, most significant first.
pub open spec fn u32_be(x: u32) -> Seq<u8> {
    seq![
        (x / 0x100_0000 % 0x100) as u8,
        (x / 0x1_0000 % 0x100) as u8,
        (x / 0x100 % 0x100) as u8,
        (x % 0x100) as u8,
    ]
}

/// The number that four bytes spell, most significant first.
pub open spec fn u32_from_be(b: Seq<u8>) -> int
    recommends
        b.len() == 4,
{
    b[0] * 0x100_0000 + b[1] * 0x1_0000 + b[2] * 0x100 + b[3]
}

/// Reading back what `u64_le` wrote gives the number written.
pub proof fn lemma_u64_le_round_trip(x: u64)
    ensures
        u64_le(x).len() == 8,
        u64_from_le(u64_le(x)) == x,
{
    assert(x == (x % 0x100) + (x / 0x100 % 0x100) * 0x100 + (x / 0x1_0000 % 0x100) * 0x1_0000 + (x
        / 0x100_0000 % 0x100) * 0x100_0000 + (x / 0x1_0000_0000 % 0x100) * 0x1_0000_0000 + (x
        / 0x100_0000_0000 % 0x100) * 0x100_0000_0000 + (x / 0x1_0000_0000_0000 % 0x100)
        * 0x1_0000_0000_0000 + (x / 0x100_0000_0000_0000 % 0x100) * 0x100_0000_0000_0000)
        by (bit_vector);
}

/// Writing what `u64_from_le` read gives the bytes read.
pub proof fn lemma_u64_from_le_round_trip(b: Seq<u8>)
    requires
        b.len() == 8,
    ensures
        0 <= u64_from_le(b) <= u64::MAX,
        u64_le(u64_from_le(b) as u64) == b,
{
    let b0 = b[0];
    let b1 = b[1];
    let b2 = b[2];
    let b3 = b[3];
    let b4 = b[4];
    let b5 = b[5];
    let b6 = b[6];
    let b7 = b[7];
    let x: u64 = (b0 + b1 * 0x100 + b2 * 0x1_0000 + b3 * 0x100_0000 + b4 * 0x1_0000_0000 + b5
        * 0x100_0000_0000 + b6 * 0x1_0000_0000_0000 + b7 * 0x100_0000_0000_0000) as u64;
    assert(x == u64_from_le(b));
    assert(x == (b0 as u64) | (b1 as u64) << 8 | (b2 as u64) << 16 | (b3 as u64) << 24 | (b4 as u64)
        << 32 | (b5 as u64) << 40 | (b6 as u64) << 48 | (b7 as u64) << 56) by (bit_vector)
        requires
            x == b0 + b1 * 0x100 + b2 * 0x1_0000 + b3 * 0x100_0000 + b4 * 0x1_0000_0000 + b5
                * 0x100_0000_0000 + b6 * 0x1_0000_0000_0000 + b7 * 0x100_0000_0000_0000,
    ;
    assert(x % 0x100 == b0 && x / 0x100 % 0x100 == b1 && x / 0x1_0000 % 0x100 == b2 && x
        / 0x100_0000 % 0x100 == b3 && x / 0x1_0000_0000 % 0x100 == b4 && x / 0x100_0000_0000
        % 0x100 == b5 && x / 0x1_0000_0000_0000 % 0x100 == b6 && x / 0x100_0000_0000_0000 % 0x100
        == b7) by (bit_vector)
        requires
            x == (b0 as u64) | (b1 as u64) << 8 | (b2 as u64) << 16 | (b3 as u64) << 24 | (
            b4 as u64) << 32 | (b5 as u64) << 40 | (b6 as u64) << 48 | (b7 as u64) << 56,
    ;
    assert(u64_le(x) =~= b);
}

/// Reading back what `u32_be` wrote gives the number written.
pub proof fn lemma_u32_be_round_trip(x: u32)
    ensures
        u32_be(x).len() == 4,
        u32_from_be(u32_be(x)) == x,
{
    assert(x == (x / 0x100_0000 % 0x100) * 0x100_0000 + (x / 0x1_0000 % 0x100) * 0x1_0000 + (x
        / 0x100 % 0x100) * 0x100 + (x % 0x100)) by (bit_vector);
}

/// Writing what `u32_from_be` read gives the bytes read.
pub proof fn lemma_u32_from_be_round_trip(b: Seq<u8>)
    requires
        b.len() == 4,
    ensures
        0 <= u32_from_be(b) <= u32::MAX,
        u32_be(u32_from_be(b) as u32) == b,
{
    let b0 = b[0];
    let b1 = b[1];
    let b2 = b[2];
    let b3 = b[3];
    let x: u32 = (b0 * 0x100_0000 + b1 * 0x1_0000 + b2 * 0x100 + b3) as u32;
    assert(x == u32_from_be(b));
    assert(x == (b0 as u32) << 24 | (b1 as u32) << 16 | (b2 as u32) << 8 | (b3 as u32))
        by (bit_vector)
        requires
            x == b0 * 0x100_0000 + b1 * 0x1_0000 + b2 * 0x100 + b3,
    ;
    assert(x / 0x100_0000 % 0x100 == b0 && x / 0x1_0000 % 0x100 == b1 && x / 0x100 % 0x100 == b2
        && x % 0x100 == b3) by (bit_vector)
        requires
            x == (b0 as u32) << 24 | (b1 as u32) << 16 | (b2 as u32) << 8 | (b3 as u32),
    ;
    assert(u32_be(x) =~= b);
}

/// Appends the eight little-endian bytes of `x` to `out`.
pub fn put_u64_le(out: &mut Vec<u8>, x: u64)
    ensures
        final(out)@ == old(out)@ + u64_le(x),
{
    out.push((x % 0x100) as u8);
    out.push((x / 0x100 % 0x100) as u8);
    out.push((x / 0x1_0000 % 0x100) as u8);
    out.push((x / 0x100_0000 % 0x100) as u8);
    out.push((x / 0x1_0000_0000 % 0x100) as u8);
    out.push((x / 0x100_0000_0000 % 0x100) as u8);
    out.push((x / 0x1_0000_0000_0000 % 0x100) as u8);
    out.push((x / 0x100_0000_0000_0000 % 0x100) as u8);
    assert(out@ =~= old(out)@ + u64_le(x));
}

/// Reads the little-endian number in the eight bytes of `bytes` from `at` on.
pub fn get_u64_le(bytes: &[u8], at: usize) -> (x: u64)
    requires
        at + 8 <= bytes.len(),
    ensures
        x == u64_from_le(bytes@.subrange(at as int, at + 8)),
{
    let b0: u64 = bytes[at] as u64;
    let b1: u64 = bytes[at + 1] as u64;
    let b2: u64 = bytes[at + 2] as u64;
    let b3: u64 = bytes[at + 3] as u64;
    let b4: u64 = bytes[at + 4] as u64;
    let b5: u64 = bytes[at + 5] as u64;
    let b6: u64 = bytes[at + 6] as u64;
    let b7: u64 = bytes[at + 7] as u64;
    b0 + b1 * 0x100 + b2 * 0x1_0000 + b3 * 0x100_0000 + b4 * 0x1_0000_0000 + b5
        * 0x100_0000_0000 + b6 * 0x1_0000_0000_0000 + b7 * 0x100_0000_0000_0000
}

/// Appends the four big-endian bytes of `x` to `out`.
pub fn put_u32_be(out: &mut Vec<u8>, x: u32)
    ensures
        final(out)@ == old(out)@ + u32_be(x),
{
    out.push((x / 0x100_0000 % 0x100) as u8);
    out.push((x / 0x1_0000 % 0x100) as u8);
    out.push((x / 0x100 % 0x100) as u8);
    out.push((x % 0x100) as u8);
    assert(out@ =~= old(out)@ + u32_be(x));
}

/// Reads the big-endian number in the four bytes of `bytes` from `at` on.
pub fn get_u32_be(bytes: &[u8], at: usize) -> (x: u32)
    requires
        at + 4 <= bytes.len(),
    ensures
        x == u32_from_be(bytes@.subrange(at as int, at + 4)),
{
    let b0: u32 = bytes[at] as u32;
    let b1: u32 = bytes[at + 1] as u32;
    let b2: u32 = bytes[at + 2] as u32;
    let b3: u32 = bytes[at + 3] as u32;
    b0 * 0x100_0000 + b1 * 0x1_0000 + b2 * 0x100 + b3
}

} // verus!
