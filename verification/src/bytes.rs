//! Big-endian byte encoding of 64-bit integers.

use vstd::prelude::*;

verus! {

/// The value of eight bytes read as a big-endian base-256 number.
pub open spec fn be_value(b: Seq<u8>) -> int {
    b[0] * 0x0100_0000_0000_0000 + b[1] * 0x0001_0000_0000_0000 + b[2] * 0x0000_0100_0000_0000
        + b[3] * 0x0000_0001_0000_0000 + b[4] * 0x0000_0000_0100_0000 + b[5]
        * 0x0000_0000_0001_0000 + b[6] * 0x0000_0000_0000_0100 + b[7]
}

/// The eight big-endian base-256 digits of `x`.
pub open spec fn be_bytes(x: u64) -> Seq<u8> {
    seq![
        (x / 0x0100_0000_0000_0000) as u8,
        ((x / 0x0001_0000_0000_0000) % 256) as u8,
        ((x / 0x0000_0100_0000_0000) % 256) as u8,
        ((x / 0x0000_0001_0000_0000) % 256) as u8,
        ((x / 0x0000_0000_0100_0000) % 256) as u8,
        ((x / 0x0000_0000_0001_0000) % 256) as u8,
        ((x / 0x0000_0000_0000_0100) % 256) as u8,
        (x % 256) as u8,
    ]
}

/// Write `x` as eight big-endian bytes.
pub fn u64_to_be_bytes(x: u64) -> (b: Vec<u8>)
    ensures
        b@ == be_bytes(x),
        b@.len() == 8,
{
    let mut b: Vec<u8> = Vec::new();
    b.push((x >> 56) as u8);
    b.push(((x >> 48) & 0xff) as u8);
    b.push(((x >> 40) & 0xff) as u8);
    b.push(((x >> 32) & 0xff) as u8);
    b.push(((x >> 24) & 0xff) as u8);
    b.push(((x >> 16) & 0xff) as u8);
    b.push(((x >> 8) & 0xff) as u8);
    b.push((x & 0xff) as u8);
    assert((x >> 56) as u8 == (x / 0x0100_0000_0000_0000) as u8) by (bit_vector);
    assert(((x >> 48) & 0xff) as u8 == ((x / 0x0001_0000_0000_0000) % 256) as u8) by (bit_vector);
    assert(((x >> 40) & 0xff) as u8 == ((x / 0x0000_0100_0000_0000) % 256) as u8) by (bit_vector);
    assert(((x >> 32) & 0xff) as u8 == ((x / 0x0000_0001_0000_0000) % 256) as u8) by (bit_vector);
    assert(((x >> 24) & 0xff) as u8 == ((x / 0x0000_0000_0100_0000) % 256) as u8) by (bit_vector);
    assert(((x >> 16) & 0xff) as u8 == ((x / 0x0000_0000_0001_0000) % 256) as u8) by (bit_vector);
    assert(((x >> 8) & 0xff) as u8 == ((x / 0x0000_0000_0000_0100) % 256) as u8) by (bit_vector);
    assert((x & 0xff) as u8 == (x % 256) as u8) by (bit_vector);
    assert(b@ =~= be_bytes(x));
    b
}

/// Read eight big-endian bytes as a 64-bit integer.
pub fn u64_from_be_bytes(b: &[u8]) -> (x: u64)
    requires
        b@.len() == 8,
    ensures
        x == be_value(b@),
{
    let b0 = b[0] as u64;
    let b1 = b[1] as u64;
    let b2 = b[2] as u64;
    let b3 = b[3] as u64;
    let b4 = b[4] as u64;
    let b5 = b[5] as u64;
    let b6 = b[6] as u64;
    let b7 = b[7] as u64;
    let x = (b0 << 56) | (b1 << 48) | (b2 << 40) | (b3 << 32) | (b4 << 24) | (b5 << 16) | (b6 << 8)
        | b7;
    assert(x == b0 * 0x0100_0000_0000_0000 + b1 * 0x0001_0000_0000_0000 + b2
        * 0x0000_0100_0000_0000 + b3 * 0x0000_0001_0000_0000 + b4 * 0x0000_0000_0100_0000 + b5
        * 0x0000_0000_0001_0000 + b6 * 0x0000_0000_0000_0100 + b7) by (bit_vector)
        requires
            b0 < 256,
            b1 < 256,
            b2 < 256,
            b3 < 256,
            b4 < 256,
            b5 < 256,
            b6 < 256,
            b7 < 256,
            x == (b0 << 56) | (b1 << 48) | (b2 << 40) | (b3 << 32) | (b4 << 24) | (b5 << 16) | (b6
                << 8) | b7,
    ;
    x
}

/// Reading the bytes written for `x` gives `x` back.
pub proof fn lemma_be_value_of_bytes(x: u64)
    ensures
        be_value(be_bytes(x)) == x,
{
    assert(x == (x / 0x0100_0000_0000_0000) * 0x0100_0000_0000_0000 + ((x / 0x0001_0000_0000_0000)
        % 256) * 0x0001_0000_0000_0000 + ((x / 0x0000_0100_0000_0000) % 256) * 0x0000_0100_0000_0000
        + ((x / 0x0000_0001_0000_0000) % 256) * 0x0000_0001_0000_0000 + ((x / 0x0000_0000_0100_0000)
        % 256) * 0x0000_0000_0100_0000 + ((x / 0x0000_0000_0001_0000) % 256) * 0x0000_0000_0001_0000
        + ((x / 0x0000_0000_0000_0100) % 256) * 0x0000_0000_0000_0100 + x % 256) by (bit_vector);
    assert(x / 0x0100_0000_0000_0000 < 256) by (bit_vector);
}

/// The value of eight bytes fits in 64 bits.
pub proof fn lemma_be_value_bounded(b: Seq<u8>)
    requires
        b.len() == 8,
    ensures
        0 <= be_value(b) <= u64::MAX,
{
    let (b0, b1, b2, b3, b4, b5, b6, b7) = (b[0], b[1], b[2], b[3], b[4], b[5], b[6], b[7]);
    assert(b0 * 0x0100_0000_0000_0000 + b1 * 0x0001_0000_0000_0000 + b2 * 0x0000_0100_0000_0000
        + b3 * 0x0000_0001_0000_0000 + b4 * 0x0000_0000_0100_0000 + b5 * 0x0000_0000_0001_0000 + b6
        * 0x0000_0000_0000_0100 + b7 <= 0xffff_ffff_ffff_ffff) by (bit_vector);
}

/// Writing the value of eight bytes gives the same bytes back.
pub proof fn lemma_be_bytes_of_value(b: Seq<u8>)
    requires
        b.len() == 8,
    ensures
        0 <= be_value(b) <= u64::MAX,
        be_bytes(be_value(b) as u64) == b,
{
    lemma_be_value_bounded(b);
    let (b0, b1, b2, b3, b4, b5, b6, b7) = (b[0], b[1], b[2], b[3], b[4], b[5], b[6], b[7]);
    let v = be_value(b) as u64;
    assert(v == b0 as u64 * 0x0100_0000_0000_0000 + b1 as u64 * 0x0001_0000_0000_0000 + b2 as u64
        * 0x0000_0100_0000_0000 + b3 as u64 * 0x0000_0001_0000_0000 + b4 as u64 * 0x0000_0000_0100_0000
        + b5 as u64 * 0x0000_0000_0001_0000 + b6 as u64 * 0x0000_0000_0000_0100 + b7 as u64);
    assert((v / 0x0100_0000_0000_0000) as u8 == b0 && ((v / 0x0001_0000_0000_0000) % 256) as u8 == b1
        && ((v / 0x0000_0100_0000_0000) % 256) as u8 == b2 && ((v / 0x0000_0001_0000_0000) % 256) as u8
        == b3 && ((v / 0x0000_0000_0100_0000) % 256) as u8 == b4 && ((v / 0x0000_0000_0001_0000) % 256)
        as u8 == b5 && ((v / 0x0000_0000_0000_0100) % 256) as u8 == b6 && (v % 256) as u8 == b7)
        by (bit_vector)
        requires
            v == b0 as u64 * 0x0100_0000_0000_0000 + b1 as u64 * 0x0001_0000_0000_0000 + b2 as u64
                * 0x0000_0100_0000_0000 + b3 as u64 * 0x0000_0001_0000_0000 + b4 as u64
                * 0x0000_0000_0100_0000 + b5 as u64 * 0x0000_0000_0001_0000 + b6 as u64
                * 0x0000_0000_0000_0100 + b7 as u64,
    ;
    assert(be_bytes(v) =~= b);
}

} // verus!
