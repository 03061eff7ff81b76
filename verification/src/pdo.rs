//! Per-PDO-slot configuration: the assigned COB-ID, the transmission type
//! and up to 8 entry-mapping descriptors.

use vstd::prelude::*;

use crate::cob_id::CobId;

verus! {

/// When a PDO is transmitted: on SYNC reception or on an application event.
#[derive(Copy, Clone, Debug, PartialEq, Eq, Structural)]
pub enum PdoTransmissionType {
    Synchronous,
    EventDriven,
}

/// One PDO mapping descriptor: which entry is mapped and how many bits of it.
#[derive(Copy, Clone, Debug, PartialEq, Eq, Structural)]
pub struct PdoEntryMapping {
    pub index: u16,
    pub sub_index: u8,
    pub length: u8,
}

impl Default for PdoEntryMapping {
    /// An unused mapping slot: all zero.
    fn default() -> (r: Self)
        ensures
            r == (PdoEntryMapping { index: 0, sub_index: 0, length: 0 }),
    {
        PdoEntryMapping { index: 0x0, sub_index: 0x0, length: 0 }
    }
}

/// The configuration of one PDO slot.
#[derive(Copy, Clone, Debug)]
pub struct PdoConfiguration {
    pub cob_id: CobId,
    pub transmission_type: PdoTransmissionType,
    pub number_of_map_values: u8,
    pub entry_mapping: [PdoEntryMapping; 8],
}

impl PdoConfiguration {
    pub fn new(
        id: CobId,
        transmission_type: PdoTransmissionType,
        mapped_val_count: u8,
        entry_mapping: [PdoEntryMapping; 8],
    ) -> (r: PdoConfiguration)
        ensures
            r.cob_id == id,
            r.transmission_type == transmission_type,
            r.number_of_map_values == mapped_val_count,
            r.entry_mapping == entry_mapping,
    {
        PdoConfiguration {
            cob_id: id,
            transmission_type,
            number_of_map_values: mapped_val_count,
            entry_mapping,
        }
    }
}

impl Default for PdoConfiguration {
    /// An unused PDO slot: disabled COB-ID, event-driven, no mappings.
    fn default() -> (r: Self)
        ensures
            !r.cob_id.spec_is_valid(),
            r.transmission_type == PdoTransmissionType::EventDriven,
            r.number_of_map_values == 0,
            forall|i: int|
                0 <= i < 8 ==> r.entry_mapping@[i] == (PdoEntryMapping {
                    index: 0,
                    sub_index: 0,
                    length: 0,
                }),
    {
        PdoConfiguration {
            cob_id: CobId::default(),
            transmission_type: PdoTransmissionType::EventDriven,
            number_of_map_values: 0,
            entry_mapping: [PdoEntryMapping::default(); 8],
        }
    }
}

} // verus!
