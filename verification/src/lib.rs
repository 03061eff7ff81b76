//! Device-side CANopen building blocks: the SDO frame codec, the Object
//! Dictionary addressing and typing model, and the COB-ID encoding shared by
//! SDO and PDO channels.
//!
//! Every frame operation is specified against spec-level encode and decode
//! functions (`sdo::spec_encode_data`, `sdo::spec_decode_rx`), and the
//! protocol laws are proved about those: encode/decode round trips
//! (`sdo::lemma_sdo_frame_roundtrip`), address filtering
//! (`sdo::lemma_address_filtering`), the length-complement convention of the
//! command byte (`sdo::lemma_length_complement`), abort-code wire round trips
//! (`abort_code::lemma_abort_code_wire_roundtrip`), and sortedness and lookup
//! correctness of the Object Dictionary (the contracts of
//! `ObjectDictionary::new` and `ObjectDictionary::get_mut_variable`).
//!
//! Frame payloads live in `heapless` fixed-capacity vectors; the few
//! `heapless` methods the codec touches are trusted, with their contracts
//! stated in `hvec` over spec-level views of the vector contents.

pub mod abort_code;
pub mod bytes;
pub mod cob_id;
pub mod entry_id;
pub mod frame;
pub mod hvec;
pub mod node;
pub mod object_dictionary;
pub mod parameter_coder;
pub mod pdo;
pub mod sdo;
pub mod sdo_command;

pub use abort_code::SdoAbortCode;
pub use cob_id::CobId;
pub use cob_id::FrameId;
pub use entry_id::EntryId;
pub use frame::EncodedCANOpenFrame;
pub use node::NodeId;
pub use object_dictionary::AccessType;
pub use object_dictionary::ObjectDictionary;
pub use object_dictionary::PdoMapability;
pub use object_dictionary::StorageLocation;
pub use object_dictionary::Variable;
pub use object_dictionary::VariableType;
pub use parameter_coder::BooleanCoder;
pub use parameter_coder::DefaultBooleanCoder;
pub use parameter_coder::DefaultF32Coder;
pub use parameter_coder::DefaultF64Coder;
pub use parameter_coder::DefaultI16Coder;
pub use parameter_coder::DefaultI32Coder;
pub use parameter_coder::DefaultI64Coder;
pub use parameter_coder::DefaultI8Coder;
pub use parameter_coder::DefaultU16Coder;
pub use parameter_coder::DefaultU32Coder;
pub use parameter_coder::DefaultU64Coder;
pub use parameter_coder::DefaultU8Coder;
pub use parameter_coder::I16Coder;
pub use parameter_coder::I32Coder;
pub use parameter_coder::I64Coder;
pub use parameter_coder::I8Coder;
pub use parameter_coder::U16Coder;
pub use parameter_coder::U32Coder;
pub use parameter_coder::U64Coder;
pub use parameter_coder::U8Coder;
pub use pdo::PdoConfiguration;
pub use pdo::PdoEntryMapping;
pub use pdo::PdoTransmissionType;
pub use sdo::SDOCoder;
pub use sdo::SDORole;
pub use sdo::SdoFrame;
pub use sdo_command::ClientCommand;
pub use sdo_command::ServerCommand;
