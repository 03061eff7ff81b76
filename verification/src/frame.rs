//! The CAN frame shape the SDO codec consumes and produces: an identifier
//! plus up to eight data bytes, never a remote frame.

use vstd::prelude::*;

use crate::cob_id::FrameId;
use crate::hvec::{hv8_as_slice, hv8_from_slice, hv8_len, hv8_view};

verus! {

/// The mathematical content of a frame: its identifier and its data bytes.
pub ghost struct FrameModel {
    pub id: FrameId,
    pub data: Seq<u8>,
}

/// An encoded CANopen frame: a CAN identifier and up to 8 data bytes.
pub struct EncodedCANOpenFrame {
    id: FrameId,
    data: heapless::Vec<u8, 8>,
}

impl View for EncodedCANOpenFrame {
    type V = FrameModel;

    closed spec fn view(&self) -> FrameModel {
        FrameModel { id: self.id, data: hv8_view(self.data) }
    }
}

impl EncodedCANOpenFrame {
    /// Builds a frame, rejecting data longer than 8 bytes.
    pub fn new(id: FrameId, data: &[u8]) -> (r: Option<EncodedCANOpenFrame>)
        ensures
            match r {
                Some(f) => data@.len() <= 8 && f@.id == id && f@.data == data@,
                None => data@.len() > 8,
            },
    {
        match hv8_from_slice(data) {
            Some(v) => Some(EncodedCANOpenFrame { id, data: v }),
            None => None,
        }
    }

    /// Wraps already-assembled frame data under the given identifier.
    pub(crate) fn from_vec_data(id: FrameId, data: heapless::Vec<u8, 8>) -> (r:
        EncodedCANOpenFrame)
        ensures
            r@.id == id,
            r@.data == hv8_view(data),
    {
        EncodedCANOpenFrame { id, data }
    }

    /// The frame's CAN identifier.
    pub fn id(&self) -> (r: FrameId)
        ensures
            r == self@.id,
    {
        self.id
    }

    /// The data length code: how many data bytes the frame carries.
    pub fn dlc(&self) -> (r: usize)
        ensures
            r == self@.data.len(),
            r <= 8,
    {
        hv8_len(&self.data)
    }

    /// The frame's data bytes.
    pub fn data(&self) -> (r: &[u8])
        ensures
            r@ == self@.data,
    {
        hv8_as_slice(&self.data)
    }

    /// Whether the frame carries an extended (29-bit) identifier.
    pub fn is_extended(&self) -> (r: bool)
        ensures
            r == (self@.id is Extended),
    {
        match self.id {
            FrameId::Extended(_) => true,
            FrameId::Standard(_) => false,
        }
    }

    /// The codec never produces remote frames.
    pub fn is_remote_frame(&self) -> (r: bool)
        ensures
            r == false,
    {
        false
    }
}

} // verus!
