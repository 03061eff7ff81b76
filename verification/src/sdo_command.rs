//! The SDO command-specifier byte: byte 0 of every SDO frame, whose top 3
//! bits select a command family and whose low 5 bits carry family-specific
//! sub-fields. Client- and server-originated commands use different layouts.
//!
//! Length sub-fields hold the *complement* of the true byte count (`4 - n`
//! for 4-byte-capacity fields, `7 - n` for 7-byte-capacity fields); this is a
//! fixed protocol convention.

use vstd::prelude::*;

verus! {

/// A command issued by a client (master) toward a server node.
#[derive(Copy, Clone, Debug, PartialEq, Eq, Structural)]
pub enum ClientCommand {
    ExpeditedDownload { length: u8 },
    InitiateSegmentedDownload,
    DownloadSegmentRequest { toggle: bool, length: u8, last_seg: bool },
    InitiateUpload,
    UploadSegmentRequest { toggle: bool },
    Abort,
}

/// A command issued by a server node toward a client (master).
#[derive(Copy, Clone, Debug, PartialEq, Eq, Structural)]
pub enum ServerCommand {
    InitiateDownloadResponse,
    DownloadSegmentResponse(bool),
    UploadInitiateExpeditedResponse(u8),
    UploadInitiateSegmentedResponse,
    UploadSegmentResponse { toggle: bool, length: u8, last: bool },
    Abort,
}

impl ClientCommand {
    /// Length sub-fields small enough for their complement encoding to be
    /// computed: up to 4 expedited bytes, up to 7 segment bytes.
    pub open spec fn lengths_in_range(self) -> bool {
        match self {
            ClientCommand::ExpeditedDownload { length } => length <= 4,
            ClientCommand::DownloadSegmentRequest { length, .. } => length <= 7,
            _ => true,
        }
    }

    /// The sub-field values that survive a trip through the command byte. An
    /// expedited length of zero would overflow its 2-bit complement field and
    /// come back as 4, so it is excluded here.
    pub open spec fn wf(self) -> bool {
        match self {
            ClientCommand::ExpeditedDownload { length } => 1 <= length <= 4,
            ClientCommand::DownloadSegmentRequest { length, .. } => length <= 7,
            _ => true,
        }
    }

    /// The command byte this command serializes to.
    pub fn to_byte(self) -> (r: u8)
        requires
            self.lengths_in_range(),
        ensures
            r == spec_client_command_byte(self),
    {
        match self {
            ClientCommand::ExpeditedDownload { length } => (1u8 << 5) | ((4 - length) << 2) | (1u8
                << 1) | 1,
            ClientCommand::InitiateSegmentedDownload => (1u8 << 5) | 1,
            ClientCommand::DownloadSegmentRequest { toggle, length, last_seg } => ((toggle
                as u8) << 4) | ((7 - length) << 1) | (last_seg as u8),
            ClientCommand::InitiateUpload => 2u8 << 5,
            ClientCommand::UploadSegmentRequest { toggle } => (3u8 << 5) | ((toggle as u8) << 4),
            ClientCommand::Abort => 4u8 << 5,
        }
    }

    /// The command a received byte encodes, or `None` when its family bits
    /// match no client command.
    pub fn from_byte(value: u8) -> (r: Option<ClientCommand>)
        ensures
            r == spec_client_command_from_byte(value),
    {
        proof {
            assert((value >> 1) & 7 <= 7 && (value >> 2) & 3 <= 3) by (bit_vector);
        }
        match value >> 5 {
            0 => Some(ClientCommand::DownloadSegmentRequest {
                toggle: (value >> 4) & 1 == 1,
                length: 7 - ((value >> 1) & 7),
                last_seg: value & 1 == 1,
            }),
            1 if (value >> 1) & 1 == 1 => Some(ClientCommand::ExpeditedDownload {
                length: 4 - ((value >> 2) & 3),
            }),
            1 => Some(ClientCommand::InitiateSegmentedDownload),
            2 => Some(ClientCommand::InitiateUpload),
            3 => Some(ClientCommand::UploadSegmentRequest { toggle: (value >> 4) & 1 == 1 }),
            4 => Some(ClientCommand::Abort),
            _ => None,
        }
    }
}

impl ServerCommand {
    /// Length sub-fields small enough for their complement encoding to be
    /// computed: up to 4 expedited bytes, up to 7 segment bytes.
    pub open spec fn lengths_in_range(self) -> bool {
        match self {
            ServerCommand::UploadInitiateExpeditedResponse(length) => length <= 4,
            ServerCommand::UploadSegmentResponse { length, .. } => length <= 7,
            _ => true,
        }
    }

    /// The sub-field values that survive a trip through the command byte. An
    /// expedited length of zero would overflow its 2-bit complement field and
    /// come back as 4, so it is excluded here.
    pub open spec fn wf(self) -> bool {
        match self {
            ServerCommand::UploadInitiateExpeditedResponse(length) => 1 <= length <= 4,
            ServerCommand::UploadSegmentResponse { length, .. } => length <= 7,
            _ => true,
        }
    }

    /// The command byte this command serializes to.
    pub fn to_byte(self) -> (r: u8)
        requires
            self.lengths_in_range(),
        ensures
            r == spec_server_command_byte(self),
    {
        match self {
            ServerCommand::InitiateDownloadResponse => 3u8 << 5,
            ServerCommand::DownloadSegmentResponse(toggle) => (1u8 << 5) | ((toggle as u8) << 4),
            ServerCommand::UploadInitiateExpeditedResponse(length) => (2u8 << 5) | ((4 - length)
                << 2) | (1u8 << 1) | 1,
            ServerCommand::UploadInitiateSegmentedResponse => (2u8 << 5) | 1,
            ServerCommand::UploadSegmentResponse { toggle, length, last } => ((toggle as u8) << 4)
                | ((7 - length) << 1) | (last as u8),
            ServerCommand::Abort => 4u8 << 5,
        }
    }

    /// The command a received byte encodes, or `None` when its family bits
    /// match no server command.
    pub fn from_byte(value: u8) -> (r: Option<ServerCommand>)
        ensures
            r == spec_server_command_from_byte(value),
    {
        proof {
            assert((value >> 1) & 7 <= 7 && (value >> 2) & 3 <= 3) by (bit_vector);
        }
        match value >> 5 {
            0 => Some(ServerCommand::UploadSegmentResponse {
                toggle: (value >> 4) & 1 == 1,
                length: 7 - ((value >> 1) & 7),
                last: value & 1 == 1,
            }),
            1 => Some(ServerCommand::DownloadSegmentResponse((value >> 4) & 1 == 1)),
            2 if (value >> 1) & 1 == 1 => Some(ServerCommand::UploadInitiateExpeditedResponse(
                4 - ((value >> 2) & 3),
            )),
            2 => Some(ServerCommand::UploadInitiateSegmentedResponse),
            3 => Some(ServerCommand::InitiateDownloadResponse),
            4 => Some(ServerCommand::Abort),
            _ => None,
        }
    }
}

/// The byte layout of each client command family.
pub open spec fn spec_client_command_byte(c: ClientCommand) -> u8 {
    match c {
        ClientCommand::ExpeditedDownload { length } => (1u8 << 5) | (((4 - length) as u8) << 2) | (
        1u8 << 1) | 1,
        ClientCommand::InitiateSegmentedDownload => (1u8 << 5) | 1,
        ClientCommand::DownloadSegmentRequest { toggle, length, last_seg } => ((toggle as u8) << 4)
            | (((7 - length) as u8) << 1) | (last_seg as u8),
        ClientCommand::InitiateUpload => 2u8 << 5,
        ClientCommand::UploadSegmentRequest { toggle } => (3u8 << 5) | ((toggle as u8) << 4),
        ClientCommand::Abort => 4u8 << 5,
    }
}

/// The client command a byte decodes to, keyed on its top 3 bits.
pub open spec fn spec_client_command_from_byte(v: u8) -> Option<ClientCommand> {
    if v >> 5 == 0 {
        Some(ClientCommand::DownloadSegmentRequest {
            toggle: (v >> 4) & 1 == 1,
            length: (7 - ((v >> 1) & 7)) as u8,
            last_seg: v & 1 == 1,
        })
    } else if v >> 5 == 1 && (v >> 1) & 1 == 1 {
        Some(ClientCommand::ExpeditedDownload { length: (4 - ((v >> 2) & 3)) as u8 })
    } else if v >> 5 == 1 {
        Some(ClientCommand::InitiateSegmentedDownload)
    } else if v >> 5 == 2 {
        Some(ClientCommand::InitiateUpload)
    } else if v >> 5 == 3 {
        Some(ClientCommand::UploadSegmentRequest { toggle: (v >> 4) & 1 == 1 })
    } else if v >> 5 == 4 {
        Some(ClientCommand::Abort)
    } else {
        None
    }
}

/// The byte layout of each server command family.
pub open spec fn spec_server_command_byte(c: ServerCommand) -> u8 {
    match c {
        ServerCommand::InitiateDownloadResponse => 3u8 << 5,
        ServerCommand::DownloadSegmentResponse(toggle) => (1u8 << 5) | ((toggle as u8) << 4),
        ServerCommand::UploadInitiateExpeditedResponse(length) => (2u8 << 5) | (((4 - length)
            as u8) << 2) | (1u8 << 1) | 1,
        ServerCommand::UploadInitiateSegmentedResponse => (2u8 << 5) | 1,
        ServerCommand::UploadSegmentResponse { toggle, length, last } => ((toggle as u8) << 4) | (((
        7 - length) as u8) << 1) | (last as u8),
        ServerCommand::Abort => 4u8 << 5,
    }
}

/// The server command a byte decodes to, keyed on its top 3 bits.
pub open spec fn spec_server_command_from_byte(v: u8) -> Option<ServerCommand> {
    if v >> 5 == 0 {
        Some(ServerCommand::UploadSegmentResponse {
            toggle: (v >> 4) & 1 == 1,
            length: (7 - ((v >> 1) & 7)) as u8,
            last: v & 1 == 1,
        })
    } else if v >> 5 == 1 {
        Some(ServerCommand::DownloadSegmentResponse((v >> 4) & 1 == 1))
    } else if v >> 5 == 2 && (v >> 1) & 1 == 1 {
        Some(ServerCommand::UploadInitiateExpeditedResponse((4 - ((v >> 2) & 3)) as u8))
    } else if v >> 5 == 2 {
        Some(ServerCommand::UploadInitiateSegmentedResponse)
    } else if v >> 5 == 3 {
        Some(ServerCommand::InitiateDownloadResponse)
    } else if v >> 5 == 4 {
        Some(ServerCommand::Abort)
    } else {
        None
    }
}

/// The complement-coded length sub-fields decode into their capacity range:
/// segment lengths to at most 7 bytes, expedited lengths to 1 through 4.
pub proof fn lemma_decoded_length_bounds(v: u8)
    ensures
        (v >> 1) & 7 <= 7,
        (v >> 2) & 3 <= 3,
        (7 - ((v >> 1) & 7)) as u8 <= 7,
        1 <= (4 - ((v >> 2) & 3)) as u8 <= 4,
{
    assert((v >> 1) & 7 <= 7 && (v >> 2) & 3 <= 3 && (7 - ((v >> 1) & 7)) as u8 <= 7 && 1 <= (4 - ((
    v >> 2) & 3)) as u8 && (4 - ((v >> 2) & 3)) as u8 <= 4) by (bit_vector);
}

/// Serializing a well-formed client command and decoding the resulting byte
/// returns the same command, sub-fields (and in particular the
/// complement-coded lengths) included.
pub proof fn lemma_client_command_roundtrip(c: ClientCommand)
    requires
        c.wf(),
    ensures
        spec_client_command_from_byte(spec_client_command_byte(c)) == Some(c),
{
    let v = spec_client_command_byte(c);
    match c {
        ClientCommand::ExpeditedDownload { length } => {
            assert(v >> 5 == 1 && (v >> 1) & 1 == 1 && (4 - ((v >> 2) & 3)) as u8 == length)
                by (bit_vector)
                requires
                    v == (1u8 << 5) | (((4 - length) as u8) << 2) | (1u8 << 1) | 1,
                    1 <= length <= 4,
            ;
        }
        ClientCommand::InitiateSegmentedDownload => {
            assert({
                let v = (1u8 << 5) | 1;
                v >> 5 == 1 && (v >> 1) & 1 == 0
            }) by (bit_vector);
        }
        ClientCommand::DownloadSegmentRequest { toggle, length, last_seg } => {
            let t: u8 = toggle as u8;
            let s: u8 = last_seg as u8;
            assert(v >> 5 == 0 && (v >> 4) & 1 == t && (7 - ((v >> 1) & 7)) as u8 == length && v
                & 1 == s) by (bit_vector)
                requires
                    v == (t << 4) | (((7 - length) as u8) << 1) | s,
                    t <= 1,
                    s <= 1,
                    length <= 7,
            ;
        }
        ClientCommand::InitiateUpload => {
            assert(2u8 << 5 >> 5 == 2) by (bit_vector);
        }
        ClientCommand::UploadSegmentRequest { toggle } => {
            let t: u8 = toggle as u8;
            assert(v >> 5 == 3 && (v >> 4) & 1 == t) by (bit_vector)
                requires
                    v == (3u8 << 5) | (t << 4),
                    t <= 1,
            ;
        }
        ClientCommand::Abort => {
            assert(4u8 << 5 >> 5 == 4) by (bit_vector);
        }
    }
}

/// Serializing a well-formed server command and decoding the resulting byte
/// returns the same command, sub-fields (and in particular the
/// complement-coded lengths) included.
pub proof fn lemma_server_command_roundtrip(c: ServerCommand)
    requires
        c.wf(),
    ensures
        spec_server_command_from_byte(spec_server_command_byte(c)) == Some(c),
{
    let v = spec_server_command_byte(c);
    match c {
        ServerCommand::InitiateDownloadResponse => {
            assert(3u8 << 5 >> 5 == 3) by (bit_vector);
        }
        ServerCommand::DownloadSegmentResponse(toggle) => {
            let t: u8 = toggle as u8;
            assert(v >> 5 == 1 && (v >> 4) & 1 == t) by (bit_vector)
                requires
                    v == (1u8 << 5) | (t << 4),
                    t <= 1,
            ;
        }
        ServerCommand::UploadInitiateExpeditedResponse(length) => {
            assert(v >> 5 == 2 && (v >> 1) & 1 == 1 && (4 - ((v >> 2) & 3)) as u8 == length)
                by (bit_vector)
                requires
                    v == (2u8 << 5) | (((4 - length) as u8) << 2) | (1u8 << 1) | 1,
                    1 <= length <= 4,
            ;
        }
        ServerCommand::UploadInitiateSegmentedResponse => {
            assert({
                let v = (2u8 << 5) | 1;
                v >> 5 == 2 && (v >> 1) & 1 == 0
            }) by (bit_vector);
        }
        ServerCommand::UploadSegmentResponse { toggle, length, last } => {
            let t: u8 = toggle as u8;
            let s: u8 = last as u8;
            assert(v >> 5 == 0 && (v >> 4) & 1 == t && (7 - ((v >> 1) & 7)) as u8 == length && v
                & 1 == s) by (bit_vector)
                requires
                    v == (t << 4) | (((7 - length) as u8) << 1) | s,
                    t <= 1,
                    s <= 1,
                    length <= 7,
            ;
        }
        ServerCommand::Abort => {
            assert(4u8 << 5 >> 5 == 4) by (bit_vector);
        }
    }
}

} // verus!
