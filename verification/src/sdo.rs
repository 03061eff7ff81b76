//! The SDO frame codec: bit-exact, stateless translation between an 8-byte
//! CAN frame and a logical SDO message, for a given node address and
//! communication role.

use vstd::prelude::*;

use crate::abort_code::{spec_abort_code_from_u32, spec_abort_code_value, SdoAbortCode};
use crate::bytes::{spec_u16_from_le, spec_u32_from_le, spec_u32_to_le, u32_from_le, u32_to_le};
use crate::node::NodeId;
use crate::cob_id::FrameId;
use crate::entry_id::EntryId;
use crate::frame::{EncodedCANOpenFrame, FrameModel};
use crate::hvec::{hv4_as_slice, hv4_len, hv4_new, hv4_push, hv4_view, hv7_as_slice, hv7_len,
    hv7_new, hv7_push, hv7_view, hv8_new, hv8_push, hv8_view};
use crate::sdo_command::{lemma_decoded_length_bounds, spec_client_command_byte,
    spec_client_command_from_byte, spec_server_command_byte, spec_server_command_from_byte,
    ClientCommand, ServerCommand};

verus! {

/// The communication role of this node: a server decodes commands issued by
/// a client (master); a client decodes commands issued by a server (device).
#[derive(Copy, Clone, Debug, PartialEq, Eq, Structural)]
pub enum SDORole {
    Server,
    Client,
}

/// A logical SDO message: the decoded form of one SDO frame, carrying exactly
/// the fields needed to re-encode it.
#[derive(Debug, Clone, PartialEq, Eq)]
#[allow(inconsistent_fields)]
pub enum SdoFrame {
    UploadRequest { id: EntryId },
    ExpeditedDownloadRequest { id: EntryId, payload: heapless::Vec<u8, 4> },
    DownloadInitiateResponse { id: EntryId },
    ExpeditedUploadResponse { id: EntryId, payload: heapless::Vec<u8, 4> },
    SegmentedUploadInitiateResponse { id: EntryId, size: u32 },
    SegmentedUploadRequest { toggle: bool },
    SegmentedUploadResponse { toggle: bool, last: bool, payload: heapless::Vec<u8, 7> },
    SegmentedDownloadInitiateRequest { id: EntryId, size: u32 },
    SegmentedDownloadRequest { toggle: bool, last: bool, payload: heapless::Vec<u8, 7> },
    SegmentedDownloadResponse { toggle: bool },
    Abort { id: EntryId, code: SdoAbortCode },
}

/// The mathematical content of a logical SDO message, with payloads as plain
/// byte sequences.
pub ghost enum SdoFrameModel {
    UploadRequest { id: EntryId },
    ExpeditedDownloadRequest { id: EntryId, payload: Seq<u8> },
    DownloadInitiateResponse { id: EntryId },
    ExpeditedUploadResponse { id: EntryId, payload: Seq<u8> },
    SegmentedUploadInitiateResponse { id: EntryId, size: u32 },
    SegmentedUploadRequest { toggle: bool },
    SegmentedUploadResponse { toggle: bool, last: bool, payload: Seq<u8> },
    SegmentedDownloadInitiateRequest { id: EntryId, size: u32 },
    SegmentedDownloadRequest { toggle: bool, last: bool, payload: Seq<u8> },
    SegmentedDownloadResponse { toggle: bool },
    Abort { id: EntryId, code: SdoAbortCode },
}

impl View for SdoFrame {
    type V = SdoFrameModel;

    open spec fn view(&self) -> SdoFrameModel {
        match *self {
            SdoFrame::UploadRequest { id } => SdoFrameModel::UploadRequest { id },
            SdoFrame::ExpeditedDownloadRequest { id, payload } =>
                SdoFrameModel::ExpeditedDownloadRequest { id, payload: hv4_view(payload) },
            SdoFrame::DownloadInitiateResponse { id } => SdoFrameModel::DownloadInitiateResponse {
                id,
            },
            SdoFrame::ExpeditedUploadResponse { id, payload } =>
                SdoFrameModel::ExpeditedUploadResponse { id, payload: hv4_view(payload) },
            SdoFrame::SegmentedUploadInitiateResponse { id, size } =>
                SdoFrameModel::SegmentedUploadInitiateResponse { id, size },
            SdoFrame::SegmentedUploadRequest { toggle } => SdoFrameModel::SegmentedUploadRequest {
                toggle,
            },
            SdoFrame::SegmentedUploadResponse { toggle, last, payload } =>
                SdoFrameModel::SegmentedUploadResponse { toggle, last, payload: hv7_view(payload) },
            SdoFrame::SegmentedDownloadInitiateRequest { id, size } =>
                SdoFrameModel::SegmentedDownloadInitiateRequest { id, size },
            SdoFrame::SegmentedDownloadRequest { toggle, last, payload } =>
                SdoFrameModel::SegmentedDownloadRequest {
                toggle,
                last,
                payload: hv7_view(payload),
            },
            SdoFrame::SegmentedDownloadResponse { toggle } =>
                SdoFrameModel::SegmentedDownloadResponse { toggle },
            SdoFrame::Abort { id, code } => SdoFrameModel::Abort { id, code },
        }
    }
}

impl SdoFrameModel {
    /// Payload lengths within the capacity their message kind allows. An
    /// expedited payload must further be non-empty: its length is carried as
    /// a 2-bit complement, so an empty one cannot survive re-decoding.
    pub open spec fn wf(self) -> bool {
        match self {
            SdoFrameModel::ExpeditedDownloadRequest { payload, .. } => 1 <= payload.len() <= 4,
            SdoFrameModel::ExpeditedUploadResponse { payload, .. } => 1 <= payload.len() <= 4,
            SdoFrameModel::SegmentedUploadResponse { payload, .. } => payload.len() <= 7,
            SdoFrameModel::SegmentedDownloadRequest { payload, .. } => payload.len() <= 7,
            _ => true,
        }
    }

    /// The role that receives (and therefore decodes) this message kind:
    /// client-originated messages are decoded by a server and vice versa.
    /// An abort is decoded identically by both roles.
    pub open spec fn receiving_role(self) -> SDORole {
        match self {
            SdoFrameModel::UploadRequest { .. } => SDORole::Server,
            SdoFrameModel::ExpeditedDownloadRequest { .. } => SDORole::Server,
            SdoFrameModel::SegmentedDownloadInitiateRequest { .. } => SDORole::Server,
            SdoFrameModel::SegmentedDownloadRequest { .. } => SDORole::Server,
            SdoFrameModel::SegmentedUploadRequest { .. } => SDORole::Server,
            SdoFrameModel::DownloadInitiateResponse { .. } => SDORole::Client,
            SdoFrameModel::ExpeditedUploadResponse { .. } => SDORole::Client,
            SdoFrameModel::SegmentedUploadInitiateResponse { .. } => SDORole::Client,
            SdoFrameModel::SegmentedUploadResponse { .. } => SDORole::Client,
            SdoFrameModel::SegmentedDownloadResponse { .. } => SDORole::Client,
            SdoFrameModel::Abort { .. } => SDORole::Server,
        }
    }
}

/// `Some(f@)` for `Some(f)`; relates an executable decode result to its
/// mathematical content.
pub open spec fn spec_frame_option_view(r: Option<SdoFrame>) -> Option<SdoFrameModel> {
    match r {
        Some(f) => Some(f@),
        None => None,
    }
}

/// A sequence zero-padded on the right to exactly 8 bytes.
pub open spec fn spec_pad8(s: Seq<u8>) -> Seq<u8> {
    s + Seq::new(if s.len() <= 8 { (8 - s.len()) as nat } else { 0nat }, |i: int| 0u8)
}

/// The meaningful bytes of an encoded message, before zero padding: the
/// command byte, then the entry identifier and payload, size, or abort code
/// its kind calls for.
pub open spec fn spec_frame_body(f: SdoFrameModel) -> Seq<u8> {
    match f {
        SdoFrameModel::UploadRequest { id } => seq![
            spec_client_command_byte(ClientCommand::InitiateUpload),
        ] + id.wire_bytes(),
        SdoFrameModel::ExpeditedDownloadRequest { id, payload } => seq![
            spec_client_command_byte(
                ClientCommand::ExpeditedDownload { length: payload.len() as u8 },
            ),
        ] + id.wire_bytes() + payload,
        SdoFrameModel::DownloadInitiateResponse { id } => seq![
            spec_server_command_byte(ServerCommand::InitiateDownloadResponse),
        ] + id.wire_bytes(),
        SdoFrameModel::ExpeditedUploadResponse { id, payload } => seq![
            spec_server_command_byte(
                ServerCommand::UploadInitiateExpeditedResponse(payload.len() as u8),
            ),
        ] + id.wire_bytes() + payload,
        SdoFrameModel::SegmentedUploadInitiateResponse { id, size } => seq![
            spec_server_command_byte(ServerCommand::UploadInitiateSegmentedResponse),
        ] + id.wire_bytes() + spec_u32_to_le(size),
        SdoFrameModel::SegmentedUploadRequest { toggle } => seq![
            spec_client_command_byte(ClientCommand::UploadSegmentRequest { toggle }),
        ],
        SdoFrameModel::SegmentedUploadResponse { toggle, last, payload } => seq![
            spec_server_command_byte(
                ServerCommand::UploadSegmentResponse {
                    toggle,
                    length: payload.len() as u8,
                    last,
                },
            ),
        ] + payload,
        SdoFrameModel::SegmentedDownloadInitiateRequest { id, size } => seq![
            spec_client_command_byte(ClientCommand::InitiateSegmentedDownload),
        ] + id.wire_bytes() + spec_u32_to_le(size),
        SdoFrameModel::SegmentedDownloadRequest { toggle, last, payload } => seq![
            spec_client_command_byte(
                ClientCommand::DownloadSegmentRequest {
                    toggle,
                    length: payload.len() as u8,
                    last_seg: last,
                },
            ),
        ] + payload,
        SdoFrameModel::SegmentedDownloadResponse { toggle } => seq![
            spec_server_command_byte(ServerCommand::DownloadSegmentResponse(toggle)),
        ],
        SdoFrameModel::Abort { id, code } => seq![spec_server_command_byte(ServerCommand::Abort)]
            + id.wire_bytes() + spec_u32_to_le(spec_abort_code_value(code)),
    }
}

/// The full 8 data bytes an encoded message carries.
pub open spec fn spec_encode_data(f: SdoFrameModel) -> Seq<u8> {
    spec_pad8(spec_frame_body(f))
}

/// The entry identifier carried at bytes 1-3 of an initiate-class frame.
pub open spec fn spec_entry_id_at(data: Seq<u8>) -> EntryId {
    EntryId { index: spec_u16_from_le(data[1], data[2]), sub_index: data[3] }
}

/// The 32-bit little-endian value carried at bytes 4-7.
pub open spec fn spec_u32_at_4(data: Seq<u8>) -> u32 {
    spec_u32_from_le(data[4], data[5], data[6], data[7])
}

/// Decoding of 8 data bytes received by a server, i.e. sent by a client.
pub open spec fn spec_decode_from_client(data: Seq<u8>) -> Option<SdoFrameModel> {
    match spec_client_command_from_byte(data[0]) {
        None => None,
        Some(cmd) => match cmd {
            ClientCommand::ExpeditedDownload { length } => Some(
                SdoFrameModel::ExpeditedDownloadRequest {
                    id: spec_entry_id_at(data),
                    payload: data.subrange(4, 4 + length as int),
                },
            ),
            ClientCommand::InitiateSegmentedDownload => Some(
                SdoFrameModel::SegmentedDownloadInitiateRequest {
                    id: spec_entry_id_at(data),
                    size: spec_u32_at_4(data),
                },
            ),
            ClientCommand::DownloadSegmentRequest { toggle, length, last_seg } => Some(
                SdoFrameModel::SegmentedDownloadRequest {
                    toggle,
                    last: last_seg,
                    payload: data.subrange(1, 1 + length as int),
                },
            ),
            ClientCommand::InitiateUpload => Some(
                SdoFrameModel::UploadRequest { id: spec_entry_id_at(data) },
            ),
            ClientCommand::UploadSegmentRequest { toggle } => Some(
                SdoFrameModel::SegmentedUploadRequest { toggle },
            ),
            ClientCommand::Abort => match spec_abort_code_from_u32(spec_u32_at_4(data)) {
                Some(code) => Some(SdoFrameModel::Abort { id: spec_entry_id_at(data), code }),
                None => None,
            },
        },
    }
}

/// Decoding of 8 data bytes received by a client, i.e. sent by a server.
pub open spec fn spec_decode_from_server(data: Seq<u8>) -> Option<SdoFrameModel> {
    match spec_server_command_from_byte(data[0]) {
        None => None,
        Some(cmd) => match cmd {
            ServerCommand::UploadSegmentResponse { toggle, length, last } => Some(
                SdoFrameModel::SegmentedUploadResponse {
                    toggle,
                    last,
                    payload: data.subrange(1, 1 + length as int),
                },
            ),
            ServerCommand::DownloadSegmentResponse(toggle) => Some(
                SdoFrameModel::SegmentedDownloadResponse { toggle },
            ),
            ServerCommand::UploadInitiateExpeditedResponse(length) => Some(
                SdoFrameModel::ExpeditedUploadResponse {
                    id: spec_entry_id_at(data),
                    payload: data.subrange(4, 4 + length as int),
                },
            ),
            ServerCommand::UploadInitiateSegmentedResponse => Some(
                SdoFrameModel::SegmentedUploadInitiateResponse {
                    id: spec_entry_id_at(data),
                    size: spec_u32_at_4(data),
                },
            ),
            ServerCommand::InitiateDownloadResponse => Some(
                SdoFrameModel::DownloadInitiateResponse { id: spec_entry_id_at(data) },
            ),
            ServerCommand::Abort => match spec_abort_code_from_u32(spec_u32_at_4(data)) {
                Some(code) => Some(SdoFrameModel::Abort { id: spec_entry_id_at(data), code }),
                None => None,
            },
        },
    }
}

/// Decoding of a received frame: the address filter, then the role-selected
/// command layout. A frame that is not a standard-identifier, 8-byte frame at
/// this node's SDO receive address decodes to no value.
pub open spec fn spec_decode_rx(node: NodeId, role: SDORole, frame: FrameModel) -> Option<
    SdoFrameModel,
> {
    if frame.id != FrameId::Standard((node.value() + 0x600) as u16) {
        None
    } else if frame.data.len() != 8 {
        None
    } else {
        match role {
            SDORole::Server => spec_decode_from_client(frame.data),
            SDORole::Client => spec_decode_from_server(frame.data),
        }
    }
}

/// The stateless SDO frame codec.
pub struct SDOCoder;

impl SDOCoder {
    /// The fixed offset of a node's SDO receive identifier.
    pub const RX_ID_OFFSET: u16 = 0x600;

    /// The fixed offset of a node's SDO transmit identifier; callers add it
    /// themselves when choosing the identifier handed to `encode_tx_frame`.
    pub const TX_ID_OFFSET: u16 = 0x580;

    /// Decodes a received frame for the given node address and role. Yields
    /// no value for a frame that fails the address filter, whose command byte
    /// matches no command of the sending role, or whose abort code is not a
    /// recognized enumeration member.
    pub fn try_decode_rx_frame(
        self_node_id: NodeId,
        node_role: SDORole,
        frame: &EncodedCANOpenFrame,
    ) -> (r: Option<SdoFrame>)
        ensures
            spec_frame_option_view(r) == spec_decode_rx(self_node_id, node_role, frame@),
    {
        match frame.id() {
            FrameId::Standard(std_id) => {
                if std_id != self_node_id.raw() as u16 + Self::RX_ID_OFFSET {
                    return None;
                }
            }
            FrameId::Extended(_) => {
                return None;
            }
        }
        if frame.dlc() != 8 {
            return None;
        }
        let frame_data = frame.data();
        match node_role {
            SDORole::Server => Self::try_decode_rx_frame_from_client(frame_data),
            SDORole::Client => Self::try_decode_rx_frame_from_server(frame_data),
        }
    }

    /// Encodes a logical message into an 8-byte, standard-identifier frame
    /// under the caller-supplied transmit identifier. The command variant is
    /// determined by the message kind alone: client commands for
    /// client-originated kinds, server commands for server-originated ones.
    pub fn encode_tx_frame(tx_id: FrameId, sdo_frame: SdoFrame) -> (r: EncodedCANOpenFrame)
        ensures
            r@.id == tx_id,
            r@.data == spec_encode_data(sdo_frame@),
            r@.data.len() == 8,
    {
        let empty: [u8; 0] = [];
        match sdo_frame {
            SdoFrame::UploadRequest { id } => Self::build_tx_sdo_frame(
                tx_id,
                ClientCommand::InitiateUpload.to_byte(),
                Some(id),
                empty.as_slice(),
            ),
            SdoFrame::ExpeditedDownloadRequest { id, payload } => {
                let length = hv4_len(&payload) as u8;
                Self::build_tx_sdo_frame(
                    tx_id,
                    ClientCommand::ExpeditedDownload { length }.to_byte(),
                    Some(id),
                    hv4_as_slice(&payload),
                )
            }
            SdoFrame::DownloadInitiateResponse { id } => Self::build_tx_sdo_frame(
                tx_id,
                ServerCommand::InitiateDownloadResponse.to_byte(),
                Some(id),
                empty.as_slice(),
            ),
            SdoFrame::ExpeditedUploadResponse { id, payload } => {
                let length = hv4_len(&payload) as u8;
                Self::build_tx_sdo_frame(
                    tx_id,
                    ServerCommand::UploadInitiateExpeditedResponse(length).to_byte(),
                    Some(id),
                    hv4_as_slice(&payload),
                )
            }
            SdoFrame::SegmentedUploadInitiateResponse { id, size } => {
                let size_bytes = u32_to_le(size);
                Self::build_tx_sdo_frame(
                    tx_id,
                    ServerCommand::UploadInitiateSegmentedResponse.to_byte(),
                    Some(id),
                    size_bytes.as_slice(),
                )
            }
            SdoFrame::SegmentedUploadRequest { toggle } => Self::build_tx_sdo_frame(
                tx_id,
                ClientCommand::UploadSegmentRequest { toggle }.to_byte(),
                None,
                empty.as_slice(),
            ),
            SdoFrame::SegmentedUploadResponse { toggle, last, payload } => {
                let length = hv7_len(&payload) as u8;
                Self::build_tx_sdo_frame(
                    tx_id,
                    ServerCommand::UploadSegmentResponse { toggle, length, last }.to_byte(),
                    None,
                    hv7_as_slice(&payload),
                )
            }
            SdoFrame::SegmentedDownloadInitiateRequest { id, size } => {
                let size_bytes = u32_to_le(size);
                Self::build_tx_sdo_frame(
                    tx_id,
                    ClientCommand::InitiateSegmentedDownload.to_byte(),
                    Some(id),
                    size_bytes.as_slice(),
                )
            }
            SdoFrame::SegmentedDownloadRequest { toggle, last, payload } => {
                let length = hv7_len(&payload) as u8;
                Self::build_tx_sdo_frame(
                    tx_id,
                    ClientCommand::DownloadSegmentRequest { toggle, length, last_seg: last }
                        .to_byte(),
                    None,
                    hv7_as_slice(&payload),
                )
            }
            SdoFrame::SegmentedDownloadResponse { toggle } => Self::build_tx_sdo_frame(
                tx_id,
                ServerCommand::DownloadSegmentResponse(toggle).to_byte(),
                None,
                empty.as_slice(),
            ),
            SdoFrame::Abort { id, code } => {
                let code_bytes = code.to_le_bytes();
                Self::build_tx_sdo_frame(
                    tx_id,
                    ServerCommand::Abort.to_byte(),
                    Some(id),
                    code_bytes.as_slice(),
                )
            }
        }
    }

    /// Lays out one frame: the command byte, then the entry identifier's
    /// 3-byte wire form if the message carries one, then the given data
    /// bytes, zero-padded to exactly 8 bytes.
    fn build_tx_sdo_frame(
        id: FrameId,
        command: u8,
        entry_id: Option<EntryId>,
        data: &[u8],
    ) -> (r: EncodedCANOpenFrame)
        requires
            1 + (if entry_id is Some { 3int } else { 0int }) + data@.len() <= 8,
        ensures
            r@.id == id,
            r@.data == spec_pad8(
                seq![command] + (match entry_id {
                    Some(e) => e.wire_bytes(),
                    None => Seq::<u8>::empty(),
                }) + data@,
            ),
            r@.data.len() == 8,
    {
        let ghost body = seq![command] + (match entry_id {
            Some(e) => e.wire_bytes(),
            None => Seq::<u8>::empty(),
        }) + data@;
        let mut payload = hv8_new();
        hv8_push(&mut payload, command);
        if let Some(eid) = entry_id {
            let id_bytes = eid.to_le_bytes();
            hv8_push(&mut payload, id_bytes[0]);
            hv8_push(&mut payload, id_bytes[1]);
            hv8_push(&mut payload, id_bytes[2]);
            proof {
                assert(hv8_view(payload) =~= seq![command] + eid.wire_bytes());
            }
        }
        let used: usize = (if entry_id.is_some() { 4 } else { 1 }) + data.len();
        let ghost head = seq![command] + (match entry_id {
            Some(e) => e.wire_bytes(),
            None => Seq::<u8>::empty(),
        });
        proof {
            assert(hv8_view(payload) =~= head);
        }
        let mut i: usize = 0;
        while i < data.len()
            invariant
                i <= data@.len(),
                head.len() + data@.len() <= 8,
                head == seq![command] + (match entry_id {
                    Some(e) => e.wire_bytes(),
                    None => Seq::<u8>::empty(),
                }),
                hv8_view(payload) == head + data@.subrange(0, i as int),
            decreases data@.len() - i as int,
        {
            hv8_push(&mut payload, data[i]);
            proof {
                assert((head + data@.subrange(0, i as int)).push(data@[i as int]) =~= head
                    + data@.subrange(0, (i + 1) as int));
            }
            i = i + 1;
        }
        proof {
            assert(data@.subrange(0, data@.len() as int) =~= data@);
            assert(hv8_view(payload) =~= body);
            assert(body.len() == used);
        }
        let mut n: usize = used;
        while n < 8
            invariant
                used <= n <= 8,
                body.len() == used,
                hv8_view(payload).len() == n,
                hv8_view(payload).subrange(0, used as int) == body,
                forall|j: int| used <= j < n ==> hv8_view(payload)[j] == 0u8,
            decreases 8 - n as int,
        {
            hv8_push(&mut payload, 0);
            proof {
                assert(hv8_view(payload).subrange(0, used as int) =~= body);
            }
            n = n + 1;
        }
        proof {
            assert(hv8_view(payload) =~= spec_pad8(body)) by {
                assert forall|j: int| 0 <= j < used implies hv8_view(payload)[j] == body[j] by {
                    assert(hv8_view(payload).subrange(0, used as int)[j] == body[j]);
                }
            }
        }
        EncodedCANOpenFrame::from_vec_data(id, payload)
    }

    /// Decodes 8 data bytes carrying a client-originated command.
    fn try_decode_rx_frame_from_client(frame_data: &[u8]) -> (r: Option<SdoFrame>)
        requires
            frame_data@.len() == 8,
        ensures
            spec_frame_option_view(r) == spec_decode_from_client(frame_data@),
    {
        proof {
            lemma_decoded_length_bounds(frame_data@[0]);
        }
        match ClientCommand::from_byte(frame_data[0]) {
            None => None,
            Some(ClientCommand::ExpeditedDownload { length }) => {
                let payload = read_payload_4(frame_data, length);
                Some(SdoFrame::ExpeditedDownloadRequest {
                    id: EntryId::from_bytes([frame_data[1], frame_data[2], frame_data[3]]),
                    payload,
                })
            }
            Some(ClientCommand::InitiateSegmentedDownload) => Some(
                SdoFrame::SegmentedDownloadInitiateRequest {
                    id: EntryId::from_bytes([frame_data[1], frame_data[2], frame_data[3]]),
                    size: u32_from_le(frame_data[4], frame_data[5], frame_data[6], frame_data[7]),
                },
            ),
            Some(ClientCommand::DownloadSegmentRequest { toggle, length, last_seg }) => {
                let payload = read_payload_7(frame_data, length);
                Some(SdoFrame::SegmentedDownloadRequest { toggle, last: last_seg, payload })
            }
            Some(ClientCommand::InitiateUpload) => Some(SdoFrame::UploadRequest {
                id: EntryId::from_bytes([frame_data[1], frame_data[2], frame_data[3]]),
            }),
            Some(ClientCommand::UploadSegmentRequest { toggle }) => Some(
                SdoFrame::SegmentedUploadRequest { toggle },
            ),
            Some(ClientCommand::Abort) => match SdoAbortCode::from_le_bytes(&frame_data[4..8]) {
                None => None,
                Some(code) => Some(SdoFrame::Abort {
                    id: EntryId::from_bytes([frame_data[1], frame_data[2], frame_data[3]]),
                    code,
                }),
            },
        }
    }

    /// Decodes 8 data bytes carrying a server-originated command.
    fn try_decode_rx_frame_from_server(frame_data: &[u8]) -> (r: Option<SdoFrame>)
        requires
            frame_data@.len() == 8,
        ensures
            spec_frame_option_view(r) == spec_decode_from_server(frame_data@),
    {
        proof {
            lemma_decoded_length_bounds(frame_data@[0]);
        }
        match ServerCommand::from_byte(frame_data[0]) {
            None => None,
            Some(ServerCommand::Abort) => match SdoAbortCode::from_le_bytes(&frame_data[4..8]) {
                None => None,
                Some(code) => Some(SdoFrame::Abort {
                    id: EntryId::from_bytes([frame_data[1], frame_data[2], frame_data[3]]),
                    code,
                }),
            },
            Some(ServerCommand::DownloadSegmentResponse(toggle)) => Some(
                SdoFrame::SegmentedDownloadResponse { toggle },
            ),
            Some(ServerCommand::InitiateDownloadResponse) => Some(
                SdoFrame::DownloadInitiateResponse {
                    id: EntryId::from_bytes([frame_data[1], frame_data[2], frame_data[3]]),
                },
            ),
            Some(ServerCommand::UploadInitiateExpeditedResponse(length)) => {
                let payload = read_payload_4(frame_data, length);
                Some(SdoFrame::ExpeditedUploadResponse {
                    id: EntryId::from_bytes([frame_data[1], frame_data[2], frame_data[3]]),
                    payload,
                })
            }
            Some(ServerCommand::UploadInitiateSegmentedResponse) => Some(
                SdoFrame::SegmentedUploadInitiateResponse {
                    id: EntryId::from_bytes([frame_data[1], frame_data[2], frame_data[3]]),
                    size: u32_from_le(frame_data[4], frame_data[5], frame_data[6], frame_data[7]),
                },
            ),
            Some(ServerCommand::UploadSegmentResponse { toggle, length, last }) => {
                let payload = read_payload_7(frame_data, length);
                Some(SdoFrame::SegmentedUploadResponse { toggle, last, payload })
            }
        }
    }
}

/// Padding to 8 bytes keeps every body byte in place and fills the rest
/// with zeros.
proof fn lemma_pad8_layout(body: Seq<u8>)
    requires
        body.len() <= 8,
    ensures
        spec_pad8(body).len() == 8,
        forall|j: int| 0 <= j < body.len() ==> spec_pad8(body)[j] == body[j],
        forall|j: int| body.len() <= j < 8 ==> spec_pad8(body)[j] == 0u8,
{
}

/// In an encoded initiate-class frame the command byte, the entry identifier
/// and the tail bytes (payload, size or abort code) sit at their fixed
/// offsets.
proof fn lemma_initiate_frame_layout(cmd: u8, id: EntryId, tail: Seq<u8>)
    requires
        tail.len() <= 4,
    ensures
        ({
            let data = spec_pad8(seq![cmd] + id.wire_bytes() + tail);
            data.len() == 8 && data[0] == cmd && spec_entry_id_at(data) == id && (forall|k: int|
                0 <= k < tail.len() ==> data[4 + k] == tail[k]) && data.subrange(
                4,
                4 + tail.len() as int,
            ) == tail
        }),
{
    let body = seq![cmd] + id.wire_bytes() + tail;
    let data = spec_pad8(body);
    lemma_pad8_layout(body);
    crate::entry_id::lemma_entry_id_wire_roundtrip(id);
    assert(body[0] == cmd);
    assert(body[1] == id.wire_bytes()[0] && body[2] == id.wire_bytes()[1] && body[3]
        == id.wire_bytes()[2]);
    crate::bytes::lemma_u16_le_roundtrip(0, 0, id.index);
    assert(spec_entry_id_at(data) == id);
    assert forall|k: int| 0 <= k < tail.len() implies data[4 + k] == tail[k] by {
        assert(body[4 + k] == tail[k]);
    }
    assert(data.subrange(4, 4 + tail.len() as int) =~= tail);
}

/// In an encoded segment-class frame the command byte is followed directly
/// by the payload bytes.
proof fn lemma_segment_frame_layout(cmd: u8, payload: Seq<u8>)
    requires
        payload.len() <= 7,
    ensures
        ({
            let data = spec_pad8(seq![cmd] + payload);
            data.len() == 8 && data[0] == cmd && data.subrange(1, 1 + payload.len() as int)
                == payload
        }),
{
    let body = seq![cmd] + payload;
    let data = spec_pad8(body);
    lemma_pad8_layout(body);
    assert(data.subrange(1, 1 + payload.len() as int) =~= payload);
}

/// Round-trip: a well-formed logical message, encoded and addressed to a
/// node's SDO receive identifier, decodes at that node (in the receiving
/// role of the message's kind) back to exactly the same message:
/// message kind, entry identifier, payload bytes, flags, size and abort code.
pub proof fn lemma_sdo_frame_roundtrip(f: SdoFrameModel, node: NodeId)
    requires
        f.wf(),
    ensures
        spec_decode_rx(
            node,
            f.receiving_role(),
            FrameModel {
                id: FrameId::Standard((node.value() + 0x600) as u16),
                data: spec_encode_data(f),
            },
        ) == Some(f),
        f is Abort ==> spec_decode_rx(
            node,
            SDORole::Client,
            FrameModel {
                id: FrameId::Standard((node.value() + 0x600) as u16),
                data: spec_encode_data(f),
            },
        ) == Some(f),
{
    let data = spec_encode_data(f);
    match f {
        SdoFrameModel::UploadRequest { id } => {
            let cmd = ClientCommand::InitiateUpload;
            crate::sdo_command::lemma_client_command_roundtrip(cmd);
            lemma_initiate_frame_layout(spec_client_command_byte(cmd), id, Seq::empty());
            assert(seq![spec_client_command_byte(cmd)] + id.wire_bytes() =~= seq![
                spec_client_command_byte(cmd),
            ] + id.wire_bytes() + Seq::<u8>::empty());
        }
        SdoFrameModel::ExpeditedDownloadRequest { id, payload } => {
            let cmd = ClientCommand::ExpeditedDownload { length: payload.len() as u8 };
            crate::sdo_command::lemma_client_command_roundtrip(cmd);
            lemma_initiate_frame_layout(spec_client_command_byte(cmd), id, payload);
        }
        SdoFrameModel::DownloadInitiateResponse { id } => {
            let cmd = ServerCommand::InitiateDownloadResponse;
            crate::sdo_command::lemma_server_command_roundtrip(cmd);
            lemma_initiate_frame_layout(spec_server_command_byte(cmd), id, Seq::empty());
            assert(seq![spec_server_command_byte(cmd)] + id.wire_bytes() =~= seq![
                spec_server_command_byte(cmd),
            ] + id.wire_bytes() + Seq::<u8>::empty());
        }
        SdoFrameModel::ExpeditedUploadResponse { id, payload } => {
            let cmd = ServerCommand::UploadInitiateExpeditedResponse(payload.len() as u8);
            crate::sdo_command::lemma_server_command_roundtrip(cmd);
            lemma_initiate_frame_layout(spec_server_command_byte(cmd), id, payload);
        }
        SdoFrameModel::SegmentedUploadInitiateResponse { id, size } => {
            let cmd = ServerCommand::UploadInitiateSegmentedResponse;
            crate::sdo_command::lemma_server_command_roundtrip(cmd);
            lemma_initiate_frame_layout(spec_server_command_byte(cmd), id, spec_u32_to_le(size));
            crate::bytes::lemma_u32_le_roundtrip(0, 0, 0, 0, size);
        }
        SdoFrameModel::SegmentedUploadRequest { toggle } => {
            let cmd = ClientCommand::UploadSegmentRequest { toggle };
            crate::sdo_command::lemma_client_command_roundtrip(cmd);
            lemma_pad8_layout(seq![spec_client_command_byte(cmd)]);
        }
        SdoFrameModel::SegmentedUploadResponse { toggle, last, payload } => {
            let cmd = ServerCommand::UploadSegmentResponse {
                toggle,
                length: payload.len() as u8,
                last,
            };
            crate::sdo_command::lemma_server_command_roundtrip(cmd);
            lemma_segment_frame_layout(spec_server_command_byte(cmd), payload);
        }
        SdoFrameModel::SegmentedDownloadInitiateRequest { id, size } => {
            let cmd = ClientCommand::InitiateSegmentedDownload;
            crate::sdo_command::lemma_client_command_roundtrip(cmd);
            lemma_initiate_frame_layout(spec_client_command_byte(cmd), id, spec_u32_to_le(size));
            crate::bytes::lemma_u32_le_roundtrip(0, 0, 0, 0, size);
        }
        SdoFrameModel::SegmentedDownloadRequest { toggle, last, payload } => {
            let cmd = ClientCommand::DownloadSegmentRequest {
                toggle,
                length: payload.len() as u8,
                last_seg: last,
            };
            crate::sdo_command::lemma_client_command_roundtrip(cmd);
            lemma_segment_frame_layout(spec_client_command_byte(cmd), payload);
        }
        SdoFrameModel::SegmentedDownloadResponse { toggle } => {
            let cmd = ServerCommand::DownloadSegmentResponse(toggle);
            crate::sdo_command::lemma_server_command_roundtrip(cmd);
            lemma_pad8_layout(seq![spec_server_command_byte(cmd)]);
        }
        SdoFrameModel::Abort { id, code } => {
            let cmd = ServerCommand::Abort;
            crate::sdo_command::lemma_server_command_roundtrip(cmd);
            lemma_initiate_frame_layout(
                spec_server_command_byte(cmd),
                id,
                spec_u32_to_le(spec_abort_code_value(code)),
            );
            crate::abort_code::lemma_abort_code_wire_roundtrip(code);
            assert(spec_server_command_byte(ServerCommand::Abort) == spec_client_command_byte(
                ClientCommand::Abort,
            )) by (bit_vector);
        }
    }
}

/// Whatever a decode yields is well-formed: its payload lengths are within
/// capacity and expedited payloads are non-empty, so every decoded message
/// can be re-encoded and round-tripped.
pub proof fn lemma_decode_yields_wf(node: NodeId, role: SDORole, frame: FrameModel)
    ensures
        (match spec_decode_rx(node, role, frame) {
            Some(f) => f.wf(),
            None => true,
        }),
{
    if frame.id == FrameId::Standard((node.value() + 0x600) as u16) && frame.data.len() == 8 {
        lemma_decoded_length_bounds(frame.data[0]);
    }
}

/// Length complements: a decoded download-segment request carries exactly
/// `7 - ((byte0 >> 1) & 0b111)` payload bytes, and a decoded expedited
/// download request exactly `4 - ((byte0 >> 2) & 0b11)`.
pub proof fn lemma_length_complement(data: Seq<u8>)
    requires
        data.len() == 8,
    ensures
        (match spec_decode_from_client(data) {
            Some(SdoFrameModel::SegmentedDownloadRequest { payload, .. }) => payload.len() == 7 - ((
            data[0] >> 1) & 7),
            _ => true,
        }),
        (match spec_decode_from_client(data) {
            Some(SdoFrameModel::ExpeditedDownloadRequest { payload, .. }) => payload.len() == 4 - ((
            data[0] >> 2) & 3),
            _ => true,
        }),
{
    lemma_decoded_length_bounds(data[0]);
}

/// Address filtering: a frame whose identifier is not the standard identifier
/// `node_address + 0x600`, or whose data length is not exactly 8, decodes to
/// no value, whatever its payload and whatever the role.
pub proof fn lemma_address_filtering(node: NodeId, role: SDORole, frame: FrameModel)
    requires
        frame.id != FrameId::Standard((node.value() + 0x600) as u16) || frame.data.len() != 8,
    ensures
        spec_decode_rx(node, role, frame) is None,
{
}

/// Copies the expedited payload bytes, `data[4 .. 4 + length]`, into a
/// 4-byte-capacity vector.
fn read_payload_4(data: &[u8], length: u8) -> (r: heapless::Vec<u8, 4>)
    requires
        data@.len() == 8,
        length <= 4,
    ensures
        hv4_view(r) == data@.subrange(4, 4 + length as int),
{
    let mut payload = hv4_new();
    let mut i: usize = 0;
    while i < length as usize
        invariant
            i <= length <= 4,
            data@.len() == 8,
            hv4_view(payload) == data@.subrange(4, 4 + i as int),
        decreases length as int - i as int,
    {
        hv4_push(&mut payload, data[4 + i]);
        proof {
            assert(data@.subrange(4, 4 + i as int).push(data@[4 + i as int]) =~= data@.subrange(
                4,
                4 + (i + 1) as int,
            ));
        }
        i = i + 1;
    }
    payload
}

/// Copies the segment payload bytes, `data[1 .. 1 + length]`, into a
/// 7-byte-capacity vector.
fn read_payload_7(data: &[u8], length: u8) -> (r: heapless::Vec<u8, 7>)
    requires
        data@.len() == 8,
        length <= 7,
    ensures
        hv7_view(r) == data@.subrange(1, 1 + length as int),
{
    let mut payload = hv7_new();
    let mut i: usize = 0;
    while i < length as usize
        invariant
            i <= length <= 7,
            data@.len() == 8,
            hv7_view(payload) == data@.subrange(1, 1 + i as int),
        decreases length as int - i as int,
    {
        hv7_push(&mut payload, data[1 + i]);
        proof {
            assert(data@.subrange(1, 1 + i as int).push(data@[1 + i as int]) =~= data@.subrange(
                1,
                1 + (i + 1) as int,
            ));
        }
        i = i + 1;
    }
    payload
}

} // verus!
