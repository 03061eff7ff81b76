//! Little-endian byte packing for the 16-bit and 32-bit fields of the wire
//! format, with the round-trip lemmas the codec proofs lean on.

use vstd::prelude::*;

verus! {

/// The 16-bit value stored little-endian in two bytes.
pub open spec fn spec_u16_from_le(b0: u8, b1: u8) -> u16 {
    (b0 + b1 * 0x100) as u16
}

/// The low and high byte of a 16-bit value, in wire order.
pub open spec fn spec_u16_to_le(v: u16) -> Seq<u8> {
    seq![(v % 0x100) as u8, (v / 0x100) as u8]
}

/// The 32-bit value stored little-endian in four bytes.
pub open spec fn spec_u32_from_le(b0: u8, b1: u8, b2: u8, b3: u8) -> u32 {
    (b0 + b1 * 0x100 + b2 * 0x1_0000 + b3 * 0x100_0000) as u32
}

/// The four bytes of a 32-bit value, in wire order.
pub open spec fn spec_u32_to_le(v: u32) -> Seq<u8> {
    seq![
        (v % 0x100) as u8,
        ((v / 0x100) % 0x100) as u8,
        ((v / 0x1_0000) % 0x100) as u8,
        ((v / 0x100_0000) % 0x100) as u8,
    ]
}

/// The 64-bit value stored little-endian in eight bytes.
pub open spec fn spec_u64_from_le(b: Seq<u8>) -> u64 {
    (b[0] + b[1] * 0x100 + b[2] * 0x1_0000 + b[3] * 0x100_0000 + b[4] * 0x1_0000_0000 + b[5]
        * 0x100_0000_0000 + b[6] * 0x1_0000_0000_0000 + b[7] * 0x100_0000_0000_0000) as u64
}

/// The eight bytes of a 64-bit value, in wire order.
pub open spec fn spec_u64_to_le(v: u64) -> Seq<u8> {
    seq![
        (v % 0x100) as u8,
        ((v / 0x100) % 0x100) as u8,
        ((v / 0x1_0000) % 0x100) as u8,
        ((v / 0x100_0000) % 0x100) as u8,
        ((v / 0x1_0000_0000) % 0x100) as u8,
        ((v / 0x100_0000_0000) % 0x100) as u8,
        ((v / 0x1_0000_0000_0000) % 0x100) as u8,
        ((v / 0x100_0000_0000_0000) % 0x100) as u8,
    ]
}

/// Packing two bytes little-endian and splitting the result again is the
/// identity, in both directions.
pub proof fn lemma_u16_le_roundtrip(b0: u8, b1: u8, v: u16)
    ensures
        spec_u16_to_le(spec_u16_from_le(b0, b1)) == seq![b0, b1],
        spec_u16_from_le((v % 0x100) as u8, (v / 0x100) as u8) == v,
{
    let n = spec_u16_from_le(b0, b1);
    assert(n == b0 as u16 + b1 as u16 * 0x100);
    assert(n % 0x100 == b0 as u16 && n / 0x100 == b1 as u16) by (bit_vector)
        requires
            n == b0 as u16 + b1 as u16 * 0x100,
    ;
    assert(spec_u16_to_le(n) =~= seq![b0, b1]);
    assert(v % 0x100 + (v / 0x100) * 0x100 == v) by (bit_vector);
}

/// Packing four bytes little-endian and splitting the result again is the
/// identity, in both directions.
pub proof fn lemma_u32_le_roundtrip(b0: u8, b1: u8, b2: u8, b3: u8, v: u32)
    ensures
        spec_u32_to_le(spec_u32_from_le(b0, b1, b2, b3)) == seq![b0, b1, b2, b3],
        spec_u32_from_le(
            (v % 0x100) as u8,
            ((v / 0x100) % 0x100) as u8,
            ((v / 0x1_0000) % 0x100) as u8,
            ((v / 0x100_0000) % 0x100) as u8,
        ) == v,
{
    let n = spec_u32_from_le(b0, b1, b2, b3);
    assert(n == b0 as u32 + b1 as u32 * 0x100 + b2 as u32 * 0x1_0000 + b3 as u32 * 0x100_0000);
    assert(n % 0x100 == b0 as u32 && (n / 0x100) % 0x100 == b1 as u32
        && (n / 0x1_0000) % 0x100 == b2 as u32 && (n / 0x100_0000) % 0x100 == b3 as u32)
        by (bit_vector)
        requires
            n == b0 as u32 + b1 as u32 * 0x100 + b2 as u32 * 0x1_0000 + b3 as u32 * 0x100_0000,
    ;
    assert(spec_u32_to_le(n) =~= seq![b0, b1, b2, b3]);
    assert(v % 0x100 + ((v / 0x100) % 0x100) * 0x100 + ((v / 0x1_0000) % 0x100) * 0x1_0000
        + ((v / 0x100_0000) % 0x100) * 0x100_0000 == v) by (bit_vector);
}

/// Packing eight bytes little-endian and splitting the result again is the
/// identity, in both directions.
pub proof fn lemma_u64_le_roundtrip(b: Seq<u8>, v: u64)
    requires
        b.len() == 8,
    ensures
        spec_u64_to_le(spec_u64_from_le(b)) == b,
        spec_u64_from_le(spec_u64_to_le(v)) == v,
{
    let n = spec_u64_from_le(b);
    let (b0, b1, b2, b3) = (b[0], b[1], b[2], b[3]);
    let (b4, b5, b6, b7) = (b[4], b[5], b[6], b[7]);
    assert(n == b0 as u64 + b1 as u64 * 0x100 + b2 as u64 * 0x1_0000 + b3 as u64 * 0x100_0000 + b4
        as u64 * 0x1_0000_0000 + b5 as u64 * 0x100_0000_0000 + b6 as u64 * 0x1_0000_0000_0000 + b7
        as u64 * 0x100_0000_0000_0000);
    assert(n % 0x100 == b0 as u64 && (n / 0x100) % 0x100 == b1 as u64 && (n / 0x1_0000) % 0x100
        == b2 as u64 && (n / 0x100_0000) % 0x100 == b3 as u64 && (n / 0x1_0000_0000) % 0x100 == b4
        as u64 && (n / 0x100_0000_0000) % 0x100 == b5 as u64 && (n / 0x1_0000_0000_0000) % 0x100
        == b6 as u64 && (n / 0x100_0000_0000_0000) % 0x100 == b7 as u64) by (bit_vector)
        requires
            n == b0 as u64 + b1 as u64 * 0x100 + b2 as u64 * 0x1_0000 + b3 as u64 * 0x100_0000 + b4
                as u64 * 0x1_0000_0000 + b5 as u64 * 0x100_0000_0000 + b6 as u64
                * 0x1_0000_0000_0000 + b7 as u64 * 0x100_0000_0000_0000,
    ;
    assert(spec_u64_to_le(n) =~= b);
    assert(v % 0x100 + ((v / 0x100) % 0x100) * 0x100 + ((v / 0x1_0000) % 0x100) * 0x1_0000 + ((v
        / 0x100_0000) % 0x100) * 0x100_0000 + ((v / 0x1_0000_0000) % 0x100) * 0x1_0000_0000 + ((v
        / 0x100_0000_0000) % 0x100) * 0x100_0000_0000 + ((v / 0x1_0000_0000_0000) % 0x100)
        * 0x1_0000_0000_0000 + ((v / 0x100_0000_0000_0000) % 0x100) * 0x100_0000_0000_0000 == v)
        by (bit_vector);
}

/// Reads a 64-bit value from eight little-endian bytes.
pub fn u64_from_le(b: &[u8]) -> (r: u64)
    requires
        b@.len() == 8,
    ensures
        r == spec_u64_from_le(b@),
{
    b[0] as u64 + b[1] as u64 * 0x100 + b[2] as u64 * 0x1_0000 + b[3] as u64 * 0x100_0000 + b[4]
        as u64 * 0x1_0000_0000 + b[5] as u64 * 0x100_0000_0000 + b[6] as u64 * 0x1_0000_0000_0000
        + b[7] as u64 * 0x100_0000_0000_0000
}

/// Writes a 64-bit value as eight little-endian bytes.
pub fn u64_to_le(v: u64) -> (r: [u8; 8])
    ensures
        r@ == spec_u64_to_le(v),
{
    let r = [
        (v % 0x100) as u8,
        ((v / 0x100) % 0x100) as u8,
        ((v / 0x1_0000) % 0x100) as u8,
        ((v / 0x100_0000) % 0x100) as u8,
        ((v / 0x1_0000_0000) % 0x100) as u8,
        ((v / 0x100_0000_0000) % 0x100) as u8,
        ((v / 0x1_0000_0000_0000) % 0x100) as u8,
        ((v / 0x100_0000_0000_0000) % 0x100) as u8,
    ];
    assert(r@ =~= spec_u64_to_le(v));
    r
}

/// Reads a 16-bit value from two little-endian bytes.
pub fn u16_from_le(b0: u8, b1: u8) -> (r: u16)
    ensures
        r == spec_u16_from_le(b0, b1),
{
    b0 as u16 + b1 as u16 * 0x100
}

/// Writes a 16-bit value as two little-endian bytes.
pub fn u16_to_le(v: u16) -> (r: [u8; 2])
    ensures
        r@ == spec_u16_to_le(v),
{
    let r = [(v % 0x100) as u8, (v / 0x100) as u8];
    assert(r@ =~= spec_u16_to_le(v));
    r
}

/// Reads a 32-bit value from four little-endian bytes.
pub fn u32_from_le(b0: u8, b1: u8, b2: u8, b3: u8) -> (r: u32)
    ensures
        r == spec_u32_from_le(b0, b1, b2, b3),
{
    b0 as u32 + b1 as u32 * 0x100 + b2 as u32 * 0x1_0000 + b3 as u32 * 0x100_0000
}

/// Writes a 32-bit value as four little-endian bytes.
pub fn u32_to_le(v: u32) -> (r: [u8; 4])
    ensures
        r@ == spec_u32_to_le(v),
{
    let r = [
        (v % 0x100) as u8,
        ((v / 0x100) % 0x100) as u8,
        ((v / 0x1_0000) % 0x100) as u8,
        ((v / 0x100_0000) % 0x100) as u8,
    ];
    assert(r@ =~= spec_u32_to_le(v));
    r
}

} // verus!
