//! Node addresses: validated 7-bit CANopen node identifiers.

use vstd::prelude::*;

verus! {

/// A CANopen node address, always in the range `0 ..= 127`.
#[derive(Copy, Clone, Eq, PartialEq, Debug)]
pub struct NodeId(u8);

impl NodeId {
    /// The raw 7-bit address held by this identifier.
    pub closed spec fn value(self) -> u8 {
        self.0
    }

    /// Every constructed `NodeId` satisfies this bound.
    pub open spec fn wf(self) -> bool {
        self.value() <= 127
    }

    /// Builds a node address, rejecting values above the 7-bit range.
    pub fn new(node_id: u8) -> (r: Option<NodeId>)
        ensures
            node_id <= 127 ==> (r matches Some(n) && n.value() == node_id),
            node_id > 127 ==> r is None,
    {
        if node_id <= 127 {
            Some(NodeId(node_id))
        } else {
            None
        }
    }

    /// Builds a node address from a value already known to be in range,
    /// e.g. one read back from validated configuration storage.
    pub fn new_unchecked(node_id: u8) -> (r: NodeId)
        requires
            node_id <= 127,
        ensures
            r.value() == node_id,
    {
        NodeId(node_id)
    }

    /// The raw address value.
    pub fn raw(&self) -> (r: u8)
        ensures
            r == self.value(),
    {
        self.0
    }

    /// The bit mask covering the 7 address bits of a CAN identifier.
    pub fn node_id_mask() -> (r: u16)
        ensures
            r == 0x7F,
    {
        0x7F
    }
}

impl Default for NodeId {
    /// The CiA 301 "unconfigured" address.
    fn default() -> (r: Self)
        ensures
            r.value() == 126,
    {
        NodeId(126)
    }
}

} // verus!
