//! COB-IDs: the packed 32-bit communication-object identifiers that SDO
//! channel defaults and PDO configurations share.

use vstd::prelude::*;

verus! {

/// A CAN arbitration identifier, either standard (11-bit) or extended
/// (29-bit).
#[derive(Copy, Clone, Debug, PartialEq, Eq, Structural)]
pub enum FrameId {
    Standard(u16),
    Extended(u32),
}

/// A packed COB-ID: bit 31 holds the invalid/disabled flag, bit 30 the
/// RTR-disallowed flag, bit 29 the extended-identifier flag, and bits 0-28
/// the frame identifier (11 bits used when standard, 29 when extended).
///
/// Bits 31 and 30 store the *negation* of the constructor's `enabled` and
/// `rtr_allowed` flags, so the accessors return exactly the flags the value
/// was constructed with.
#[derive(Copy, Clone, Debug, PartialEq, Eq, Structural)]
pub struct CobId {
    guts: u32,
}

impl CobId {
    /// The packed 32-bit form.
    pub closed spec fn raw(self) -> u32 {
        self.guts
    }

    /// Whether the communication object is enabled (bit 31 clear).
    pub open spec fn spec_is_valid(self) -> bool {
        (self.raw() >> 31) & 1 == 0
    }

    /// Whether remote transmission requests are allowed (bit 30 clear).
    pub open spec fn spec_rtr_allowed(self) -> bool {
        (self.raw() >> 30) & 1 == 0
    }

    /// Whether the stored identifier is extended (bit 29 set).
    pub open spec fn spec_is_extended_id(self) -> bool {
        (self.raw() >> 29) & 1 == 1
    }

    /// The identifier carried in bits 0-28, typed by the extended flag.
    pub open spec fn spec_assigned_frame_id(self) -> FrameId {
        if self.spec_is_extended_id() {
            FrameId::Extended(self.raw() & 0x1FFF_FFFF)
        } else {
            FrameId::Standard((self.raw() & 0x7FF) as u16)
        }
    }

    /// Packs the flags and the identifier. The identifier is masked to 11 or
    /// 29 bits; out-of-range high bits are silently discarded, so callers
    /// must pre-validate when strict rejection is required.
    pub fn new(enabled: bool, rtr_allowed: bool, frame_id: FrameId) -> (r: CobId)
        ensures
            r.spec_is_valid() == enabled,
            r.spec_rtr_allowed() == rtr_allowed,
            r.spec_assigned_frame_id() == (match frame_id {
                FrameId::Standard(id) => FrameId::Standard((id & 0x7FF) as u16),
                FrameId::Extended(id) => FrameId::Extended(id & 0x1FFF_FFFF),
            }),
    {
        let invalid: u32 = if enabled { 0 } else { 1 };
        let rtr_disallowed: u32 = if rtr_allowed { 0 } else { 1 };
        let (extended, raw_frame_id): (u32, u32) = match frame_id {
            FrameId::Standard(id) => {
                proof {
                    assert((id & 0x7FF) as u32 <= 0x7FF) by (bit_vector);
                }
                (0, (id & 0x7FF) as u32)
            }
            FrameId::Extended(id) => {
                proof {
                    assert(id & 0x1FFF_FFFF <= 0x1FFF_FFFF) by (bit_vector);
                }
                (1, id & 0x1FFF_FFFF)
            }
        };
        let guts: u32 = (invalid << 31) | (rtr_disallowed << 30) | (extended << 29) | raw_frame_id;
        proof {
            lemma_cob_id_unpack(guts, invalid, rtr_disallowed, extended, raw_frame_id);
        }
        CobId { guts }
    }

    /// Whether the communication object is enabled.
    pub fn is_valid(&self) -> (r: bool)
        ensures
            r == self.spec_is_valid(),
    {
        (self.guts >> 31) & 0x1 == 0x0
    }

    /// Whether remote transmission requests are allowed.
    pub fn rtr_allowed(&self) -> (r: bool)
        ensures
            r == self.spec_rtr_allowed(),
    {
        (self.guts >> 30) & 0x1 == 0x0
    }

    /// Whether the stored identifier is extended.
    pub fn is_extended_id(&self) -> (r: bool)
        ensures
            r == self.spec_is_extended_id(),
    {
        (self.guts >> 29) & 0x1 == 0x1
    }

    /// The frame identifier assigned to this communication object.
    pub fn assigned_frame_id(&self) -> (r: FrameId)
        ensures
            r == self.spec_assigned_frame_id(),
    {
        if self.is_extended_id() {
            FrameId::Extended(self.guts & 0x1FFF_FFFF)
        } else {
            proof {
                let g = self.guts;
                assert(g & 0x7FF <= 0x7FF) by (bit_vector);
            }
            FrameId::Standard((self.guts & 0x7FF) as u16)
        }
    }
}

/// Unpacking the three flag bits and the identifier bits recovers exactly
/// what was packed.
proof fn lemma_cob_id_unpack(guts: u32, invalid: u32, rtr_disallowed: u32, extended: u32, id: u32)
    requires
        invalid <= 1,
        rtr_disallowed <= 1,
        extended <= 1,
        extended == 1 ==> id <= 0x1FFF_FFFF,
        extended == 0 ==> id <= 0x7FF,
        guts == (invalid << 31) | (rtr_disallowed << 30) | (extended << 29) | id,
    ensures
        (guts >> 31) & 1 == invalid,
        (guts >> 30) & 1 == rtr_disallowed,
        (guts >> 29) & 1 == extended,
        guts & 0x1FFF_FFFF == id,
        extended == 0 ==> guts & 0x7FF == id,
{
    assert((guts >> 31) & 1 == invalid && (guts >> 30) & 1 == rtr_disallowed
        && (guts >> 29) & 1 == extended && guts & 0x1FFF_FFFF == id
        && (extended == 0 ==> guts & 0x7FF == id)) by (bit_vector)
        requires
            invalid <= 1,
            rtr_disallowed <= 1,
            extended <= 1,
            extended == 1 ==> id <= 0x1FFF_FFFF,
            extended == 0 ==> id <= 0x7FF,
            guts == (invalid << 31) | (rtr_disallowed << 30) | (extended << 29) | id,
    ;
}

impl Default for CobId {
    /// A disabled COB-ID: bit 31 set, everything else clear.
    fn default() -> (r: Self)
        ensures
            r.raw() == 0x8000_0000,
            !r.spec_is_valid(),
    {
        let r = CobId { guts: 0x8000_0000 };
        proof {
            assert((0x8000_0000u32 >> 31) & 1 == 1) by (bit_vector);
        }
        r
    }
}

} // verus!
