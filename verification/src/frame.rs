//! A plain CAN frame: an arbitration id (standard or extended) and up to
//! eight data bytes.

use vstd::prelude::*;

verus! {

/// A CAN arbitration id: standard (11-bit) or extended (29-bit).
#[derive(Clone, Copy, Debug, PartialEq, Eq, Structural)]
pub enum FrameId {
    Standard(u16),
    Extended(u32),
}

impl FrameId {
    /// A standard id fits in 11 bits, an extended id in 29 bits.
    pub open spec fn wf(self) -> bool {
        match self {
            FrameId::Standard(id) => id < 0x800,
            FrameId::Extended(id) => id < 0x2000_0000,
        }
    }
}

/// A CAN data frame: an arbitration id and `dlc` data bytes (at most eight).
#[derive(Clone, Copy, Debug)]
pub struct CanFrame {
    pub id: FrameId,
    pub data: [u8; 8],
    pub dlc: u8,
}

impl PartialEq for CanFrame {
    fn eq(&self, other: &CanFrame) -> (r: bool) {
        let mut same_data = true;
        let mut i: usize = 0;
        while i < 8
            invariant
                i <= 8,
                same_data == (forall|j: int| 0 <= j < i ==> self.data@[j] == other.data@[j]),
            decreases 8 - i,
        {
            if self.data[i] != other.data[i] {
                same_data = false;
            }
            i = i + 1;
        }
        self.id == other.id && same_data && self.dlc == other.dlc
    }
}

impl Eq for CanFrame {

}

impl vstd::std_specs::cmp::PartialEqSpecImpl for CanFrame {
    open spec fn obeys_eq_spec() -> bool {
        true
    }

    open spec fn eq_spec(&self, other: &CanFrame) -> bool {
        self.id == other.id && self.data@ =~= other.data@ && self.dlc == other.dlc
    }
}

impl CanFrame {
    pub open spec fn wf(self) -> bool {
        self.id.wf() && self.dlc <= 8
    }

    /// Build a frame from an id and a full eight-byte payload.
    pub fn new8(id: FrameId, data: [u8; 8]) -> (r: CanFrame)
        requires
            id.wf(),
        ensures
            r == (CanFrame { id, data, dlc: 8u8 }),
            r.wf(),
    {
        CanFrame { id, data, dlc: 8 }
    }

    /// Build a frame with no data bytes (dlc 0).
    pub fn new_empty(id: FrameId) -> (r: CanFrame)
        requires
            id.wf(),
        ensures
            r == (CanFrame {
                id,
                data: [0u8, 0u8, 0u8, 0u8, 0u8, 0u8, 0u8, 0u8],
                dlc: 0u8,
            }),
            r.wf(),
    {
        let data: [u8; 8] = [0, 0, 0, 0, 0, 0, 0, 0];
        CanFrame { id, data, dlc: 0 }
    }

    /// The number of valid data bytes.
    pub fn dlc(&self) -> (r: u8)
        ensures
            r == self.dlc,
    {
        self.dlc
    }

    /// The raw standard arbitration id, or `None` for an extended frame.
    pub fn standard_id(&self) -> (r: Option<u16>)
        ensures
            r == (match self.id {
                FrameId::Standard(id) => Some(id),
                FrameId::Extended(_) => None::<u16>,
            }),
    {
        match self.id {
            FrameId::Standard(id) => Some(id),
            FrameId::Extended(_) => None,
        }
    }

    /// The raw extended arbitration id, or `None` for a standard frame.
    pub fn extended_id(&self) -> (r: Option<u32>)
        ensures
            r == (match self.id {
                FrameId::Standard(_) => None::<u32>,
                FrameId::Extended(id) => Some(id),
            }),
    {
        match self.id {
            FrameId::Standard(_) => None,
            FrameId::Extended(id) => Some(id),
        }
    }
}

} // verus!
