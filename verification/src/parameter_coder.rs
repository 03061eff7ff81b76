//! Parameter coders: one interface per primitive wire type, converting
//! between a fixed-width little-endian byte array and the in-memory value.
//! The default coders perform straight little-endian numeric conversion;
//! entries may be bound to custom implementations (e.g. fixed-point scaling)
//! instead. Coders are stateless.

use vstd::prelude::*;

use crate::bytes::{lemma_u16_le_roundtrip, lemma_u32_le_roundtrip, lemma_u64_le_roundtrip,
    spec_u16_from_le, spec_u16_to_le, spec_u32_from_le, spec_u32_to_le, spec_u64_from_le,
    spec_u64_to_le, u16_from_le, u16_to_le, u32_from_le, u32_to_le, u64_from_le, u64_to_le};

verus! {

pub trait BooleanCoder {
    fn from_raw(&self, raw: u8) -> bool;

    fn to_raw(&self, value: bool) -> u8;
}

pub trait I8Coder {
    fn from_raw(&self, raw: u8) -> i8;

    fn to_raw(&self, value: i8) -> u8;
}

pub trait U8Coder {
    fn from_raw(&self, raw: u8) -> u8;

    fn to_raw(&self, value: u8) -> u8;
}

pub trait I16Coder {
    fn from_raw(&self, raw: [u8; 2]) -> i16;

    fn to_raw(&self, value: i16) -> [u8; 2];
}

pub trait U16Coder {
    fn from_raw(&self, raw: [u8; 2]) -> u16;

    fn to_raw(&self, value: u16) -> [u8; 2];
}

pub trait I32Coder {
    fn from_raw(&self, raw: [u8; 4]) -> i32;

    fn to_raw(&self, value: i32) -> [u8; 4];
}

pub trait U32Coder {
    fn from_raw(&self, raw: [u8; 4]) -> u32;

    fn to_raw(&self, value: u32) -> [u8; 4];
}

pub trait I64Coder {
    fn from_raw(&self, raw: [u8; 8]) -> i64;

    fn to_raw(&self, value: i64) -> [u8; 8];
}

pub trait U64Coder {
    fn from_raw(&self, raw: [u8; 8]) -> u64;

    fn to_raw(&self, value: u64) -> [u8; 8];
}

pub struct DefaultBooleanCoder;

pub struct DefaultI8Coder;

pub struct DefaultU8Coder;

pub struct DefaultI16Coder;

pub struct DefaultU16Coder;

pub struct DefaultU32Coder;

pub struct DefaultI32Coder;

pub struct DefaultI64Coder;

pub struct DefaultU64Coder;

/// Default coder tag for 32-bit float entries. Float arithmetic stays outside
/// the verified library, so its conversion interface lives with the
/// float-facing application code.
pub struct DefaultF32Coder;

/// Default coder tag for 64-bit float entries. Float arithmetic stays outside
/// the verified library, so its conversion interface lives with the
/// float-facing application code.
pub struct DefaultF64Coder;

impl BooleanCoder for DefaultBooleanCoder {
    /// Zero reads as `false`; any nonzero byte reads as `true`.
    fn from_raw(&self, raw: u8) -> (r: bool)
        ensures
            r == (raw != 0),
    {
        raw != 0x0
    }

    /// `true` writes as 1, `false` as 0.
    fn to_raw(&self, value: bool) -> (r: u8)
        ensures
            r == (if value {
                1u8
            } else {
                0u8
            }),
    {
        if value {
            0x1
        } else {
            0x0
        }
    }
}

impl I8Coder for DefaultI8Coder {
    fn from_raw(&self, raw: u8) -> (r: i8)
        ensures
            r == raw as i8,
    {
        raw as i8
    }

    fn to_raw(&self, value: i8) -> (r: u8)
        ensures
            r == value as u8,
    {
        value as u8
    }
}

impl U8Coder for DefaultU8Coder {
    fn from_raw(&self, raw: u8) -> (r: u8)
        ensures
            r == raw,
    {
        raw
    }

    fn to_raw(&self, value: u8) -> (r: u8)
        ensures
            r == value,
    {
        value
    }
}

impl I16Coder for DefaultI16Coder {
    fn from_raw(&self, raw: [u8; 2]) -> (r: i16)
        ensures
            r == spec_u16_from_le(raw@[0], raw@[1]) as i16,
    {
        u16_from_le(raw[0], raw[1]) as i16
    }

    fn to_raw(&self, value: i16) -> (r: [u8; 2])
        ensures
            r@ == spec_u16_to_le(value as u16),
    {
        u16_to_le(value as u16)
    }
}

impl U16Coder for DefaultU16Coder {
    fn from_raw(&self, raw: [u8; 2]) -> (r: u16)
        ensures
            r == spec_u16_from_le(raw@[0], raw@[1]),
    {
        u16_from_le(raw[0], raw[1])
    }

    fn to_raw(&self, value: u16) -> (r: [u8; 2])
        ensures
            r@ == spec_u16_to_le(value),
    {
        u16_to_le(value)
    }
}

impl I32Coder for DefaultI32Coder {
    fn from_raw(&self, raw: [u8; 4]) -> (r: i32)
        ensures
            r == spec_u32_from_le(raw@[0], raw@[1], raw@[2], raw@[3]) as i32,
    {
        u32_from_le(raw[0], raw[1], raw[2], raw[3]) as i32
    }

    fn to_raw(&self, value: i32) -> (r: [u8; 4])
        ensures
            r@ == spec_u32_to_le(value as u32),
    {
        u32_to_le(value as u32)
    }
}

impl U32Coder for DefaultU32Coder {
    fn from_raw(&self, raw: [u8; 4]) -> (r: u32)
        ensures
            r == spec_u32_from_le(raw@[0], raw@[1], raw@[2], raw@[3]),
    {
        u32_from_le(raw[0], raw[1], raw[2], raw[3])
    }

    fn to_raw(&self, value: u32) -> (r: [u8; 4])
        ensures
            r@ == spec_u32_to_le(value),
    {
        u32_to_le(value)
    }
}

impl I64Coder for DefaultI64Coder {
    fn from_raw(&self, raw: [u8; 8]) -> (r: i64)
        ensures
            r == spec_u64_from_le(raw@) as i64,
    {
        u64_from_le(raw.as_slice()) as i64
    }

    fn to_raw(&self, value: i64) -> (r: [u8; 8])
        ensures
            r@ == spec_u64_to_le(value as u64),
    {
        u64_to_le(value as u64)
    }
}

impl U64Coder for DefaultU64Coder {
    fn from_raw(&self, raw: [u8; 8]) -> (r: u64)
        ensures
            r == spec_u64_from_le(raw@),
    {
        u64_from_le(raw.as_slice())
    }

    fn to_raw(&self, value: u64) -> (r: [u8; 8])
        ensures
            r@ == spec_u64_to_le(value),
    {
        u64_to_le(value)
    }
}

/// The default multi-byte coders invert each other: reading back the bytes a
/// value was written to returns that value, at every width.
pub proof fn lemma_default_coder_roundtrip(v16: u16, v32: u32, v64: u64)
    ensures
        spec_u16_from_le(spec_u16_to_le(v16)[0], spec_u16_to_le(v16)[1]) == v16,
        spec_u32_from_le(
            spec_u32_to_le(v32)[0],
            spec_u32_to_le(v32)[1],
            spec_u32_to_le(v32)[2],
            spec_u32_to_le(v32)[3],
        ) == v32,
        spec_u64_from_le(spec_u64_to_le(v64)) == v64,
{
    lemma_u16_le_roundtrip(0, 0, v16);
    lemma_u32_le_roundtrip(0, 0, 0, 0, v32);
    lemma_u64_le_roundtrip(seq![0, 0, 0, 0, 0, 0, 0, 0], v64);
}

} // verus!
