use canopen::{AccessType, CobId, EntryId, FrameId, NodeId, ObjectDictionary, PdoConfiguration,
    PdoEntryMapping, PdoMapability, PdoTransmissionType, StorageLocation, Variable, VariableType};

fn variable(index: u16, sub_index: u8, value: u8) -> Variable {
    Variable {
        name: "entry",
        storage_location: StorageLocation::Ram,
        data_type: VariableType::UInt8(value),
        pdo_mapability: PdoMapability::NotMappable,
        access_type: AccessType::ReadWrite,
        id: EntryId::new(index, sub_index),
    }
}

#[test]
fn it_works() {
    let od: Option<ObjectDictionary<0, 8, 8>> = ObjectDictionary::new(
        0,
        0,
        [Default::default(); 8],
        [Default::default(); 8],
        [Default::default(); 8],
        Vec::new(),
    );
    assert!(od.is_some());
}

#[test]
fn dictionary_sorts_and_finds_every_entry() {
    let entries = vec![
        variable(0x2000, 0x02, 10),
        variable(0x1000, 0x00, 20),
        variable(0x2000, 0x01, 30),
        variable(0x1017, 0x00, 40),
    ];
    let mut od: ObjectDictionary<8, 0, 0> =
        ObjectDictionary::new(0, 0, [0; 8], [], [], entries).unwrap();

    for (index, sub_index, value) in [
        (0x2000u16, 0x02u8, 10u8),
        (0x1000, 0x00, 20),
        (0x2000, 0x01, 30),
        (0x1017, 0x00, 40),
    ] {
        let found = od.get_mut_variable(EntryId::new(index, sub_index));
        assert!(found.is_some());
        let v = found.unwrap();
        assert_eq!(v.id, EntryId::new(index, sub_index));
        assert!(matches!(v.data_type, VariableType::UInt8(x) if x == value));
    }

    assert!(od.get_mut_variable(EntryId::new(0x2000, 0x03)).is_none());
    assert!(od.get_mut_variable(EntryId::new(0x3000, 0x00)).is_none());
}

#[test]
fn dictionary_rejects_duplicate_identifiers() {
    let entries = vec![
        variable(0x2000, 0x01, 1),
        variable(0x1000, 0x00, 2),
        variable(0x2000, 0x01, 3),
    ];
    let od: Option<ObjectDictionary<8, 0, 0>> = ObjectDictionary::new(0, 0, [0; 8], [], [], entries);
    assert!(od.is_none());
}

#[test]
fn dictionary_lookup_allows_value_mutation() {
    let entries = vec![variable(0x2000, 0x01, 1)];
    let mut od: ObjectDictionary<1, 0, 0> =
        ObjectDictionary::new(0, 0, [0; 8], [], [], entries).unwrap();
    {
        let v = od.get_mut_variable(EntryId::new(0x2000, 0x01)).unwrap();
        v.data_type = VariableType::UInt8(99);
    }
    let v = od.get_mut_variable(EntryId::new(0x2000, 0x01)).unwrap();
    assert!(matches!(v.data_type, VariableType::UInt8(99)));
}

#[test]
fn entry_id_orders_lexicographically() {
    assert!(EntryId::new(0x1000, 0xFF) < EntryId::new(0x1001, 0x00));
    assert!(EntryId::new(0x1000, 0x01) < EntryId::new(0x1000, 0x02));
    assert_eq!(EntryId::new(0x1000, 0x01), EntryId::new(0x1000, 0x01));
}

#[test]
fn entry_id_wire_form_roundtrips() {
    let id = EntryId::new(0x2017, 0x05);
    let bytes = id.to_le_bytes();
    assert_eq!(bytes, [0x17, 0x20, 0x05]);
    assert_eq!(EntryId::from_bytes(bytes), id);
}

#[test]
fn variable_type_raw_sizes() {
    assert_eq!(VariableType::Boolean(true).raw_size(), 1);
    assert_eq!(VariableType::Int8(-1).raw_size(), 1);
    assert_eq!(VariableType::UInt8(0).raw_size(), 1);
    assert_eq!(VariableType::Array(3).raw_size(), 1);
    assert_eq!(VariableType::Record(2).raw_size(), 1);
    assert_eq!(VariableType::Int16(-5).raw_size(), 2);
    assert_eq!(VariableType::UInt16(5).raw_size(), 2);
    assert_eq!(VariableType::Int32(-5).raw_size(), 4);
    assert_eq!(VariableType::UInt32(5).raw_size(), 4);
    assert_eq!(VariableType::Float32Bits(0x3F80_0000).raw_size(), 4);
    assert_eq!(VariableType::Int64(-5).raw_size(), 8);
    assert_eq!(VariableType::UInt64(5).raw_size(), 8);
    assert_eq!(VariableType::Float64Bits(0x3FF0_0000_0000_0000).raw_size(), 8);
    assert_eq!(VariableType::RawBytes(17).raw_size(), 17);
}

#[test]
fn access_type_gates() {
    assert!(AccessType::ReadOnly.allows_reading());
    assert!(!AccessType::ReadOnly.allows_writing());
    assert!(!AccessType::WriteOnly.allows_reading());
    assert!(AccessType::WriteOnly.allows_writing());
    assert!(AccessType::ReadWrite.allows_reading());
    assert!(AccessType::ReadWrite.allows_writing());
}

#[test]
fn node_id_validates_range() {
    assert_eq!(NodeId::new(0).unwrap().raw(), 0);
    assert_eq!(NodeId::new(127).unwrap().raw(), 127);
    assert!(NodeId::new(128).is_none());
    assert!(NodeId::new(255).is_none());
    assert_eq!(NodeId::default().raw(), 126);
    assert_eq!(NodeId::new_unchecked(42).raw(), 42);
    assert_eq!(NodeId::node_id_mask(), 0x7F);
}

#[test]
fn cob_id_packs_and_unpacks() {
    let enabled = CobId::new(true, true, FrameId::Standard(0x605));
    assert!(enabled.is_valid());
    assert!(enabled.rtr_allowed());
    assert!(!enabled.is_extended_id());
    assert_eq!(enabled.assigned_frame_id(), FrameId::Standard(0x605));

    let disabled = CobId::new(false, false, FrameId::Standard(0x605));
    assert!(!disabled.is_valid());
    assert!(!disabled.rtr_allowed());

    let extended = CobId::new(true, false, FrameId::Extended(0x1234_5678));
    assert!(extended.is_extended_id());
    assert_eq!(extended.assigned_frame_id(), FrameId::Extended(0x1234_5678));
}

#[test]
fn cob_id_masks_out_of_range_identifiers() {
    let std = CobId::new(true, true, FrameId::Standard(0xF7FF));
    assert_eq!(std.assigned_frame_id(), FrameId::Standard(0x7FF));
    let ext = CobId::new(true, true, FrameId::Extended(0xFFFF_FFFF));
    assert_eq!(ext.assigned_frame_id(), FrameId::Extended(0x1FFF_FFFF));
}

#[test]
fn cob_id_default_is_disabled() {
    let d = CobId::default();
    assert!(!d.is_valid());
}

#[test]
fn pdo_configuration_defaults() {
    let config = PdoConfiguration::default();
    assert!(!config.cob_id.is_valid());
    assert_eq!(config.transmission_type, PdoTransmissionType::EventDriven);
    assert_eq!(config.number_of_map_values, 0);
    assert_eq!(config.entry_mapping[7], PdoEntryMapping::default());
}

#[test]
fn pdo_configuration_new_stores_fields() {
    let mut mappings = [PdoEntryMapping::default(); 8];
    mappings[0] = PdoEntryMapping {
        index: 0x6040,
        sub_index: 0x00,
        length: 16,
    };
    let config = PdoConfiguration::new(
        CobId::new(true, false, FrameId::Standard(0x181)),
        PdoTransmissionType::Synchronous,
        1,
        mappings,
    );
    assert!(config.cob_id.is_valid());
    assert!(!config.cob_id.rtr_allowed());
    assert_eq!(config.transmission_type, PdoTransmissionType::Synchronous);
    assert_eq!(config.number_of_map_values, 1);
    assert_eq!(config.entry_mapping[0].index, 0x6040);
    assert_eq!(config.entry_mapping[0].length, 16);
}
