//! Entry identifiers: the (index, sub-index) keys of the Object Dictionary,
//! with their fixed 3-byte little-endian wire form.

use vstd::prelude::*;

use crate::bytes::{lemma_u16_le_roundtrip, spec_u16_from_le, spec_u16_to_le, u16_from_le,
    u16_to_le};

verus! {

/// A composite Object Dictionary key: a 16-bit index and an 8-bit sub-index,
/// ordered lexicographically.
#[derive(Copy, Clone, Debug, PartialEq, Eq, PartialOrd, Ord, Structural)]
pub struct EntryId {
    pub index: u16,
    pub sub_index: u8,
}

impl EntryId {
    /// Lexicographic order on (index, sub_index): the invariant the Object
    /// Dictionary's lookup depends on.
    pub open spec fn spec_le(self, other: EntryId) -> bool {
        self.index < other.index || (self.index == other.index && self.sub_index
            <= other.sub_index)
    }

    /// Strict lexicographic order on (index, sub_index).
    pub open spec fn spec_lt(self, other: EntryId) -> bool {
        self.spec_le(other) && self != other
    }

    /// The 3-byte wire form: index low byte, index high byte, sub-index.
    pub open spec fn wire_bytes(self) -> Seq<u8> {
        spec_u16_to_le(self.index).push(self.sub_index)
    }

    pub fn new(index: u16, sub_index: u8) -> (r: EntryId)
        ensures
            r == (EntryId { index, sub_index }),
    {
        EntryId { index, sub_index }
    }

    /// Reads an identifier from its 3-byte wire form.
    pub fn from_bytes(bytes: [u8; 3]) -> (r: EntryId)
        ensures
            r.index == spec_u16_from_le(bytes@[0], bytes@[1]),
            r.sub_index == bytes@[2],
    {
        EntryId { index: u16_from_le(bytes[0], bytes[1]), sub_index: bytes[2] }
    }

    /// Writes the 3-byte wire form.
    pub fn to_le_bytes(&self) -> (r: [u8; 3])
        ensures
            r@ == self.wire_bytes(),
    {
        let index_bytes = u16_to_le(self.index);
        let r = [index_bytes[0], index_bytes[1], self.sub_index];
        assert(r@ =~= self.wire_bytes());
        r
    }

    /// Whether `self` orders at or before `other`.
    pub fn le(&self, other: &EntryId) -> (r: bool)
        ensures
            r == self.spec_le(*other),
    {
        self.index < other.index || (self.index == other.index && self.sub_index
            <= other.sub_index)
    }
}

/// The 3-byte wire form decodes back to the identifier it was written from.
pub proof fn lemma_entry_id_wire_roundtrip(id: EntryId)
    ensures
        id.wire_bytes().len() == 3,
        spec_u16_from_le(id.wire_bytes()[0], id.wire_bytes()[1]) == id.index,
        id.wire_bytes()[2] == id.sub_index,
{
    lemma_u16_le_roundtrip(0, 0, id.index);
}

} // verus!
