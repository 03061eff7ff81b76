//! The standardized SDO abort codes and their 4-byte little-endian wire form.

use vstd::prelude::*;

use crate::bytes::{lemma_u32_le_roundtrip, spec_u32_from_le, spec_u32_to_le, u32_from_le,
    u32_to_le};

verus! {

/// The fixed enumeration of SDO abort codes, each with a standardized 32-bit
/// value (see `spec_abort_code_value`).
#[derive(Copy, Clone, Debug, PartialEq, Eq, Structural)]
pub enum SdoAbortCode {
    ToggleBitNotAlternated,
    SDOProtocolTimedOut,
    CommandSpecifierError,
    InvalidBlockSize,
    InvalidSequenceNumber,
    CRCError,
    OutOfMemory,
    UnsupportedAccess,
    WriteOnlyError,
    ReadOnlyError,
    ObjectDoesNotExist,
    ObjectCannotBeMapped,
    PDOOverflow,
    ParameterIncompatibility,
    InternalIncompatibility,
    HardwareError,
    WrongLength,
    TooLong,
    TooShort,
    SubindexDoesNotExist,
    InvalidValue,
    ValueTooHigh,
    ValueTooLow,
    MaxLessThanMin,
    ResourceNotAvailable,
    GeneralError,
    TransferOrStorageError,
    LocalControlError,
    DeviceStateError,
    DictionaryError,
    NoDataAvailable,
}

/// The standardized 32-bit value of each abort code.
pub open spec fn spec_abort_code_value(code: SdoAbortCode) -> u32 {
    match code {
        SdoAbortCode::ToggleBitNotAlternated => 0x0503_0000,
        SdoAbortCode::SDOProtocolTimedOut => 0x0504_0000,
        SdoAbortCode::CommandSpecifierError => 0x0504_0001,
        SdoAbortCode::InvalidBlockSize => 0x0504_0002,
        SdoAbortCode::InvalidSequenceNumber => 0x0504_0003,
        SdoAbortCode::CRCError => 0x0504_0004,
        SdoAbortCode::OutOfMemory => 0x0504_0005,
        SdoAbortCode::UnsupportedAccess => 0x0601_0000,
        SdoAbortCode::WriteOnlyError => 0x0601_0001,
        SdoAbortCode::ReadOnlyError => 0x0601_0002,
        SdoAbortCode::ObjectDoesNotExist => 0x0602_0000,
        SdoAbortCode::ObjectCannotBeMapped => 0x0604_0041,
        SdoAbortCode::PDOOverflow => 0x0604_0042,
        SdoAbortCode::ParameterIncompatibility => 0x0604_0043,
        SdoAbortCode::InternalIncompatibility => 0x0604_0047,
        SdoAbortCode::HardwareError => 0x0606_0000,
        SdoAbortCode::WrongLength => 0x0607_0010,
        SdoAbortCode::TooLong => 0x0607_0012,
        SdoAbortCode::TooShort => 0x0607_0013,
        SdoAbortCode::SubindexDoesNotExist => 0x0609_0011,
        SdoAbortCode::InvalidValue => 0x0609_0030,
        SdoAbortCode::ValueTooHigh => 0x0609_0031,
        SdoAbortCode::ValueTooLow => 0x0609_0032,
        SdoAbortCode::MaxLessThanMin => 0x0609_0036,
        SdoAbortCode::ResourceNotAvailable => 0x060A_0023,
        SdoAbortCode::GeneralError => 0x0800_0000,
        SdoAbortCode::TransferOrStorageError => 0x0800_0020,
        SdoAbortCode::LocalControlError => 0x0800_0021,
        SdoAbortCode::DeviceStateError => 0x0800_0022,
        SdoAbortCode::DictionaryError => 0x0800_0023,
        SdoAbortCode::NoDataAvailable => 0x0800_0024,
    }
}

/// The abort code enumerated for a 32-bit value, if any.
pub open spec fn spec_abort_code_from_u32(v: u32) -> Option<SdoAbortCode> {
    if v == 0x0503_0000 {
        Some(SdoAbortCode::ToggleBitNotAlternated)
    } else if v == 0x0504_0000 {
        Some(SdoAbortCode::SDOProtocolTimedOut)
    } else if v == 0x0504_0001 {
        Some(SdoAbortCode::CommandSpecifierError)
    } else if v == 0x0504_0002 {
        Some(SdoAbortCode::InvalidBlockSize)
    } else if v == 0x0504_0003 {
        Some(SdoAbortCode::InvalidSequenceNumber)
    } else if v == 0x0504_0004 {
        Some(SdoAbortCode::CRCError)
    } else if v == 0x0504_0005 {
        Some(SdoAbortCode::OutOfMemory)
    } else if v == 0x0601_0000 {
        Some(SdoAbortCode::UnsupportedAccess)
    } else if v == 0x0601_0001 {
        Some(SdoAbortCode::WriteOnlyError)
    } else if v == 0x0601_0002 {
        Some(SdoAbortCode::ReadOnlyError)
    } else if v == 0x0602_0000 {
        Some(SdoAbortCode::ObjectDoesNotExist)
    } else if v == 0x0604_0041 {
        Some(SdoAbortCode::ObjectCannotBeMapped)
    } else if v == 0x0604_0042 {
        Some(SdoAbortCode::PDOOverflow)
    } else if v == 0x0604_0043 {
        Some(SdoAbortCode::ParameterIncompatibility)
    } else if v == 0x0604_0047 {
        Some(SdoAbortCode::InternalIncompatibility)
    } else if v == 0x0606_0000 {
        Some(SdoAbortCode::HardwareError)
    } else if v == 0x0607_0010 {
        Some(SdoAbortCode::WrongLength)
    } else if v == 0x0607_0012 {
        Some(SdoAbortCode::TooLong)
    } else if v == 0x0607_0013 {
        Some(SdoAbortCode::TooShort)
    } else if v == 0x0609_0011 {
        Some(SdoAbortCode::SubindexDoesNotExist)
    } else if v == 0x0609_0030 {
        Some(SdoAbortCode::InvalidValue)
    } else if v == 0x0609_0031 {
        Some(SdoAbortCode::ValueTooHigh)
    } else if v == 0x0609_0032 {
        Some(SdoAbortCode::ValueTooLow)
    } else if v == 0x0609_0036 {
        Some(SdoAbortCode::MaxLessThanMin)
    } else if v == 0x060A_0023 {
        Some(SdoAbortCode::ResourceNotAvailable)
    } else if v == 0x0800_0000 {
        Some(SdoAbortCode::GeneralError)
    } else if v == 0x0800_0020 {
        Some(SdoAbortCode::TransferOrStorageError)
    } else if v == 0x0800_0021 {
        Some(SdoAbortCode::LocalControlError)
    } else if v == 0x0800_0022 {
        Some(SdoAbortCode::DeviceStateError)
    } else if v == 0x0800_0023 {
        Some(SdoAbortCode::DictionaryError)
    } else if v == 0x0800_0024 {
        Some(SdoAbortCode::NoDataAvailable)
    } else {
        None
    }
}

impl SdoAbortCode {
    /// The standardized 32-bit value of this code.
    pub fn to_u32(&self) -> (r: u32)
        ensures
            r == spec_abort_code_value(*self),
    {
        match self {
            SdoAbortCode::ToggleBitNotAlternated => 0x0503_0000,
            SdoAbortCode::SDOProtocolTimedOut => 0x0504_0000,
            SdoAbortCode::CommandSpecifierError => 0x0504_0001,
            SdoAbortCode::InvalidBlockSize => 0x0504_0002,
            SdoAbortCode::InvalidSequenceNumber => 0x0504_0003,
            SdoAbortCode::CRCError => 0x0504_0004,
            SdoAbortCode::OutOfMemory => 0x0504_0005,
            SdoAbortCode::UnsupportedAccess => 0x0601_0000,
            SdoAbortCode::WriteOnlyError => 0x0601_0001,
            SdoAbortCode::ReadOnlyError => 0x0601_0002,
            SdoAbortCode::ObjectDoesNotExist => 0x0602_0000,
            SdoAbortCode::ObjectCannotBeMapped => 0x0604_0041,
            SdoAbortCode::PDOOverflow => 0x0604_0042,
            SdoAbortCode::ParameterIncompatibility => 0x0604_0043,
            SdoAbortCode::InternalIncompatibility => 0x0604_0047,
            SdoAbortCode::HardwareError => 0x0606_0000,
            SdoAbortCode::WrongLength => 0x0607_0010,
            SdoAbortCode::TooLong => 0x0607_0012,
            SdoAbortCode::TooShort => 0x0607_0013,
            SdoAbortCode::SubindexDoesNotExist => 0x0609_0011,
            SdoAbortCode::InvalidValue => 0x0609_0030,
            SdoAbortCode::ValueTooHigh => 0x0609_0031,
            SdoAbortCode::ValueTooLow => 0x0609_0032,
            SdoAbortCode::MaxLessThanMin => 0x0609_0036,
            SdoAbortCode::ResourceNotAvailable => 0x060A_0023,
            SdoAbortCode::GeneralError => 0x0800_0000,
            SdoAbortCode::TransferOrStorageError => 0x0800_0020,
            SdoAbortCode::LocalControlError => 0x0800_0021,
            SdoAbortCode::DeviceStateError => 0x0800_0022,
            SdoAbortCode::DictionaryError => 0x0800_0023,
            SdoAbortCode::NoDataAvailable => 0x0800_0024,
        }
    }

    /// The abort code enumerated for a 32-bit value, or `None` for an
    /// unrecognized value.
    pub fn from_u32(v: u32) -> (r: Option<SdoAbortCode>)
        ensures
            r == spec_abort_code_from_u32(v),
    {
        match v {
            0x0503_0000 => Some(SdoAbortCode::ToggleBitNotAlternated),
            0x0504_0000 => Some(SdoAbortCode::SDOProtocolTimedOut),
            0x0504_0001 => Some(SdoAbortCode::CommandSpecifierError),
            0x0504_0002 => Some(SdoAbortCode::InvalidBlockSize),
            0x0504_0003 => Some(SdoAbortCode::InvalidSequenceNumber),
            0x0504_0004 => Some(SdoAbortCode::CRCError),
            0x0504_0005 => Some(SdoAbortCode::OutOfMemory),
            0x0601_0000 => Some(SdoAbortCode::UnsupportedAccess),
            0x0601_0001 => Some(SdoAbortCode::WriteOnlyError),
            0x0601_0002 => Some(SdoAbortCode::ReadOnlyError),
            0x0602_0000 => Some(SdoAbortCode::ObjectDoesNotExist),
            0x0604_0041 => Some(SdoAbortCode::ObjectCannotBeMapped),
            0x0604_0042 => Some(SdoAbortCode::PDOOverflow),
            0x0604_0043 => Some(SdoAbortCode::ParameterIncompatibility),
            0x0604_0047 => Some(SdoAbortCode::InternalIncompatibility),
            0x0606_0000 => Some(SdoAbortCode::HardwareError),
            0x0607_0010 => Some(SdoAbortCode::WrongLength),
            0x0607_0012 => Some(SdoAbortCode::TooLong),
            0x0607_0013 => Some(SdoAbortCode::TooShort),
            0x0609_0011 => Some(SdoAbortCode::SubindexDoesNotExist),
            0x0609_0030 => Some(SdoAbortCode::InvalidValue),
            0x0609_0031 => Some(SdoAbortCode::ValueTooHigh),
            0x0609_0032 => Some(SdoAbortCode::ValueTooLow),
            0x0609_0036 => Some(SdoAbortCode::MaxLessThanMin),
            0x060A_0023 => Some(SdoAbortCode::ResourceNotAvailable),
            0x0800_0000 => Some(SdoAbortCode::GeneralError),
            0x0800_0020 => Some(SdoAbortCode::TransferOrStorageError),
            0x0800_0021 => Some(SdoAbortCode::LocalControlError),
            0x0800_0022 => Some(SdoAbortCode::DeviceStateError),
            0x0800_0023 => Some(SdoAbortCode::DictionaryError),
            0x0800_0024 => Some(SdoAbortCode::NoDataAvailable),
            _ => None,
        }
    }

    /// Reads an abort code from its 4-byte little-endian wire form; any other
    /// length, or an unrecognized value, yields no code.
    pub fn from_le_bytes(bytes: &[u8]) -> (r: Option<SdoAbortCode>)
        ensures
            bytes@.len() == 4 ==> r == spec_abort_code_from_u32(
                spec_u32_from_le(bytes@[0], bytes@[1], bytes@[2], bytes@[3])),
            bytes@.len() != 4 ==> r is None,
    {
        if bytes.len() != 4 {
            return None;
        }
        SdoAbortCode::from_u32(u32_from_le(bytes[0], bytes[1], bytes[2], bytes[3]))
    }

    /// Writes the 4-byte little-endian wire form of this code.
    pub fn to_le_bytes(&self) -> (r: [u8; 4])
        ensures
            r@ == spec_u32_to_le(spec_abort_code_value(*self)),
    {
        u32_to_le(self.to_u32())
    }
}

/// Every enumerated abort code decodes back from its own 32-bit value.
pub proof fn lemma_abort_code_value_roundtrip(code: SdoAbortCode)
    ensures
        spec_abort_code_from_u32(spec_abort_code_value(code)) == Some(code),
{
}

/// Every enumerated abort code decodes back from its 4-byte wire form.
pub proof fn lemma_abort_code_wire_roundtrip(code: SdoAbortCode)
    ensures
        spec_u32_to_le(spec_abort_code_value(code)).len() == 4,
        spec_abort_code_from_u32(
            spec_u32_from_le(
                spec_u32_to_le(spec_abort_code_value(code))[0],
                spec_u32_to_le(spec_abort_code_value(code))[1],
                spec_u32_to_le(spec_abort_code_value(code))[2],
                spec_u32_to_le(spec_abort_code_value(code))[3],
            )) == Some(code),
{
    lemma_u32_le_roundtrip(0, 0, 0, 0, spec_abort_code_value(code));
    lemma_abort_code_value_roundtrip(code);
}

} // verus!
