//! Translator for the Solax inverter's CAN protocol.
//!
//! The inverter polls with an extended-id request frame; the translator
//! answers with a fixed sequence of status frames encoding the fused
//! battery record in the inverter's wire format. Errors are split into
//! fatal categories, which must drop the contactor signal (a standard
//! frame on the inverter bus, a failed frame encoding), and benign ones
//! that merely skip a cycle (an unrecognized extended id, the
//! informational timestamp frame).

use vstd::prelude::*;

use crate::bms::Bms;
use crate::frame::{CanFrame, FrameId};

verus! {

/// Extended id the inverter sends its poll requests on.
pub const ID_SOLAX_REQUEST: u32 = 0x1871;

/// Extended id of the announce frame sent on first contact.
pub const ID_SOLAX_ANNOUNCE: u32 = 0x100A001;

/// Why a poll was not answered with status frames.
#[derive(Clone, Copy, Debug)]
pub enum SolaxError {
    /// A status frame could not be encoded for this id. Fatal.
    InvalidFrameEncode(u32),
    /// A standard-id frame appeared on the inverter bus: protocol
    /// desync. Fatal.
    BadId(u32),
    /// The inverter sent its wall-clock time (year, month, day, hour,
    /// minute, second). Informational; benign.
    TimeStamp([u8; 6]),
    /// An extended id the protocol does not use, or a poll subtype the
    /// translator ignores. Benign.
    UnwantedFrame,
}

impl PartialEq for SolaxError {
    fn eq(&self, other: &SolaxError) -> (r: bool) {
        match (self, other) {
            (SolaxError::InvalidFrameEncode(a), SolaxError::InvalidFrameEncode(b)) => a == b,
            (SolaxError::BadId(a), SolaxError::BadId(b)) => a == b,
            (SolaxError::TimeStamp(a), SolaxError::TimeStamp(b)) => {
                let mut same = true;
                let mut i: usize = 0;
                while i < 6
                    invariant
                        i <= 6,
                        same == (forall|j: int| 0 <= j < i ==> a@[j] == b@[j]),
                    decreases 6 - i,
                {
                    if a[i] != b[i] {
                        same = false;
                    }
                    i = i + 1;
                }
                same
            },
            (SolaxError::UnwantedFrame, SolaxError::UnwantedFrame) => true,
            _ => false,
        }
    }
}

impl Eq for SolaxError {

}

impl vstd::std_specs::cmp::PartialEqSpecImpl for SolaxError {
    open spec fn obeys_eq_spec() -> bool {
        true
    }

    open spec fn eq_spec(&self, other: &SolaxError) -> bool {
        match (self, other) {
            (SolaxError::InvalidFrameEncode(a), SolaxError::InvalidFrameEncode(b)) => a == b,
            (SolaxError::BadId(a), SolaxError::BadId(b)) => a == b,
            (SolaxError::TimeStamp(a), SolaxError::TimeStamp(b)) => a@ =~= b@,
            (SolaxError::UnwantedFrame, SolaxError::UnwantedFrame) => true,
            _ => false,
        }
    }
}

impl SolaxError {
    /// Whether this error must drop the inverter-communications-valid
    /// signal (and with it the contactor).
    pub open spec fn spec_is_fatal(self) -> bool {
        match self {
            SolaxError::InvalidFrameEncode(_) => true,
            SolaxError::BadId(_) => true,
            SolaxError::TimeStamp(_) => false,
            SolaxError::UnwantedFrame => false,
        }
    }

    pub fn is_fatal(&self) -> (r: bool)
        ensures
            r == self.spec_is_fatal(),
    {
        match self {
            SolaxError::InvalidFrameEncode(_) => true,
            SolaxError::BadId(_) => true,
            SolaxError::TimeStamp(_) => false,
            SolaxError::UnwantedFrame => false,
        }
    }
}

/// The low byte of a 16-bit word.
pub open spec fn lo8(v: u16) -> u8 {
    (v % 256) as u8
}

/// The high byte of a 16-bit word.
pub open spec fn hi8(v: u16) -> u8 {
    (v / 256) as u8
}

/// Eight data bytes carrying four little-endian 16-bit words.
pub open spec fn spec_le16x4(a: u16, b: u16, c: u16, d: u16) -> [u8; 8] {
    [lo8(a), hi8(a), lo8(b), hi8(b), lo8(c), hi8(c), lo8(d), hi8(d)]
}

/// Build a status frame of four little-endian words.
fn le16x4_frame(id: u32, a: u16, b: u16, c: u16, d: u16) -> (r: CanFrame)
    requires
        id < 0x2000_0000,
    ensures
        r == (CanFrame { id: FrameId::Extended(id), data: spec_le16x4(a, b, c, d), dlc: 8u8 }),
{
    CanFrame::new8(
        FrameId::Extended(id),
        [
            (a % 256) as u8,
            (a / 256) as u8,
            (b % 256) as u8,
            (b / 256) as u8,
            (c % 256) as u8,
            (c / 256) as u8,
            (d % 256) as u8,
            (d / 256) as u8,
        ],
    )
}

/// A signed quantity reinterpreted as an unsigned word for the wire
/// (two's complement).
pub open spec fn spec_wire16(v: int) -> u16 {
    (v % 65536) as u16
}

/// Carry a signed 16-bit value onto the wire.
fn wire16(v: i16) -> (r: u16)
    ensures
        r == spec_wire16(v as int),
{
    if v >= 0 {
        v as u16
    } else {
        proof {
            assert((v as int) % 65536 == v as int + 65536);
        }
        (v as i32 + 65536) as u16
    }
}

/// Pack current in deciamps, truncated toward zero and saturated onto a
/// signed 16-bit wire word.
pub open spec fn spec_current_word(centiamps: i32) -> u16 {
    let deciamps = if centiamps >= 0 {
        centiamps as int / 10
    } else {
        -((-(centiamps as int)) / 10)
    };
    let clamped = if deciamps > 32767 {
        32767
    } else if deciamps < -32768 {
        -32768
    } else {
        deciamps
    };
    spec_wire16(clamped)
}

/// A 32-bit quantity saturated onto a 16-bit wire field.
pub open spec fn spec_sat16(v: u32) -> u16 {
    if v > 0xFFFF {
        0xFFFFu16
    } else {
        v as u16
    }
}

fn sat16(v: u32) -> (r: u16)
    ensures
        r == spec_sat16(v),
{
    if v > 0xFFFF {
        0xFFFF
    } else {
        v as u16
    }
}

/// The seven status frames answering one poll, in transmit order, as a
/// function of the fused record alone.
///
/// Frame ids and field layout, four little-endian words each:
/// 0x1877 identity words; 0x1872 configured pack-voltage ceiling and
/// floor in decivolts and the charge/discharge limits in deciamps;
/// 0x1873 pack voltage in decivolts, current in deciamps, state of
/// charge in percent, remaining energy in centi-kilowatt-hours; 0x1874
/// highest/lowest pack temperature in deci-degrees and highest/lowest
/// cell voltage in decivolts; 0x1875 pack temperature in deci-degrees
/// and two protocol words; 0x1876 a protocol word and the
/// highest/lowest cell voltage in millivolts; 0x1878 pack voltage in
/// decivolts and a capacity word.
pub open spec fn spec_status_frames(b: Bms) -> Seq<CanFrame> {
    seq![
        CanFrame {
            id: FrameId::Extended(0x1877),
            data: [0u8, 0u8, 0u8, 0u8, 0u8, 0u8, 247u8, 22u8],
            dlc: 8u8,
        },
        CanFrame {
            id: FrameId::Extended(0x1872),
            data: spec_le16x4(
                spec_sat16(b.config.pack_volts.max / 10),
                spec_sat16(b.config.pack_volts.min / 10),
                b.charge_max,
                b.discharge_max,
            ),
            dlc: 8u8,
        },
        CanFrame {
            id: FrameId::Extended(0x1873),
            data: spec_le16x4(
                spec_sat16(b.pack_volts / 10),
                spec_current_word(b.current),
                b.soc / 10,
                spec_sat16(b.kwh_remaining),
            ),
            dlc: 8u8,
        },
        CanFrame {
            id: FrameId::Extended(0x1874),
            data: spec_le16x4(
                spec_wire16(b.temps.max as int),
                spec_wire16(b.temps.min as int),
                b.cell_range_mv.max / 100,
                b.cell_range_mv.min / 100,
            ),
            dlc: 8u8,
        },
        CanFrame {
            id: FrameId::Extended(0x1875),
            data: spec_le16x4(spec_wire16(b.temp as int), 1u16, 1u16, 0u16),
            dlc: 8u8,
        },
        CanFrame {
            id: FrameId::Extended(0x1876),
            data: spec_le16x4(1u16, b.cell_range_mv.max, 0u16, b.cell_range_mv.min),
            dlc: 8u8,
        },
        CanFrame {
            id: FrameId::Extended(0x1878),
            data: spec_le16x4(spec_sat16(b.pack_volts / 10), 0u16, 10000u16, 0u16),
            dlc: 8u8,
        },
    ]
}

/// The Solax translator's own state: whether the first-contact
/// announce frame has been sent.
pub struct SolaxBms {
    pub announce_sent: bool,
}

impl SolaxBms {
    /// A translator that has not yet announced itself.
    pub fn new() -> (r: SolaxBms)
        ensures
            !r.announce_sent,
    {
        SolaxBms { announce_sent: false }
    }

    /// Answer one inbound inverter frame with outbound status frames.
    ///
    /// A poll (extended id 0x1871, subtype 1) is answered with the
    /// announce frame on first contact and with the seven status frames
    /// afterwards. Subtype 2 carries the inverter's clock and is
    /// reported as the benign `TimeStamp`. Any other extended id, or
    /// any other subtype, is the benign `UnwantedFrame`; a standard id
    /// is the fatal `BadId`.
    pub fn parser(&mut self, request: CanFrame, bms: &Bms, _initialised: bool) -> (r: Result<
        Vec<CanFrame>,
        SolaxError,
    >)
        ensures
            match request.id {
                FrameId::Standard(id) => r == Err::<Vec<CanFrame>, SolaxError>(
                    SolaxError::BadId(id as u32),
                ) && *final(self) == *old(self),
                FrameId::Extended(id) => {
                    &&& id != ID_SOLAX_REQUEST ==> r == Err::<Vec<CanFrame>, SolaxError>(
                        SolaxError::UnwantedFrame,
                    ) && *final(self) == *old(self)
                    &&& (id == ID_SOLAX_REQUEST && request.data@[0] == 1 && !old(
                        self,
                    ).announce_sent) ==> final(self).announce_sent && (r matches Ok(v)
                        && v@ =~= seq![
                        CanFrame {
                            id: FrameId::Extended(ID_SOLAX_ANNOUNCE),
                            data: [0u8, 0u8, 0u8, 0u8, 0u8, 0u8, 0u8, 0u8],
                            dlc: 0u8,
                        },
                    ])
                    &&& (id == ID_SOLAX_REQUEST && request.data@[0] == 1 && old(
                        self,
                    ).announce_sent) ==> *final(self) == *old(self) && (r matches Ok(v) && v@
                        =~= spec_status_frames(*bms))
                    &&& (id == ID_SOLAX_REQUEST && request.data@[0] == 2) ==> r == Err::<
                        Vec<CanFrame>,
                        SolaxError,
                    >(
                        SolaxError::TimeStamp(
                            [
                                request.data@[1],
                                request.data@[2],
                                request.data@[3],
                                request.data@[4],
                                request.data@[5],
                                request.data@[6],
                            ],
                        ),
                    ) && *final(self) == *old(self)
                    &&& (id == ID_SOLAX_REQUEST && request.data@[0] != 1 && request.data@[0] != 2)
                        ==> r == Err::<Vec<CanFrame>, SolaxError>(SolaxError::UnwantedFrame)
                        && *final(self) == *old(self)
                },
            },
    {
        let id: u32 = match request.id {
            FrameId::Standard(id) => {
                return Err(SolaxError::BadId(id as u32));
            },
            FrameId::Extended(id) => id,
        };
        if id != ID_SOLAX_REQUEST {
            return Err(SolaxError::UnwantedFrame);
        }
        if request.data[0] == 2 {
            return Err(
                SolaxError::TimeStamp(
                    [
                        request.data[1],
                        request.data[2],
                        request.data[3],
                        request.data[4],
                        request.data[5],
                        request.data[6],
                    ],
                ),
            );
        }
        if request.data[0] != 1 {
            return Err(SolaxError::UnwantedFrame);
        }
        if !self.announce_sent {
            self.announce_sent = true;
            let mut v: Vec<CanFrame> = Vec::new();
            v.push(CanFrame::new_empty(FrameId::Extended(ID_SOLAX_ANNOUNCE)));
            return Ok(v);
        }
        let mut v: Vec<CanFrame> = Vec::new();
        v.push(CanFrame::new8(FrameId::Extended(0x1877), [0, 0, 0, 0, 0, 0, 247, 22]));
        v.push(
            le16x4_frame(
                0x1872,
                sat16(bms.config.pack_volts.max / 10),
                sat16(bms.config.pack_volts.min / 10),
                bms.charge_max,
                bms.discharge_max,
            ),
        );
        let current_word: u16 = {
            let c: i64 = bms.current as i64;
            let deciamps: i64 = if c >= 0 {
                c / 10
            } else {
                -((-c) / 10)
            };
            let clamped: i64 = if deciamps > 32767 {
                32767
            } else if deciamps < -32768 {
                -32768
            } else {
                deciamps
            };
            wire16(clamped as i16)
        };
        v.push(
            le16x4_frame(
                0x1873,
                sat16(bms.pack_volts / 10),
                current_word,
                bms.soc / 10,
                sat16(bms.kwh_remaining),
            ),
        );
        v.push(
            le16x4_frame(
                0x1874,
                wire16(bms.temps.max),
                wire16(bms.temps.min),
                bms.cell_range_mv.max / 100,
                bms.cell_range_mv.min / 100,
            ),
        );
        v.push(le16x4_frame(0x1875, wire16(bms.temp), 1, 1, 0));
        v.push(le16x4_frame(0x1876, 1, bms.cell_range_mv.max, 0, bms.cell_range_mv.min));
        v.push(le16x4_frame(0x1878, sat16(bms.pack_volts / 10), 0, 10000, 0));
        proof {
            assert(v@ =~= spec_status_frames(*bms));
        }
        Ok(v)
    }
}

/// Benign classification of the unrecognized: an extended frame with an
/// id the protocol does not use is reported as `UnwantedFrame`, which
/// is not fatal — the polling loop continues and the contactor signal
/// is untouched.
pub proof fn lemma_unknown_id_is_benign()
    ensures
        !SolaxError::UnwantedFrame.spec_is_fatal(),
        !SolaxError::TimeStamp([0u8, 0u8, 0u8, 0u8, 0u8, 0u8]).spec_is_fatal(),
        forall|id: u32| #[trigger] SolaxError::BadId(id).spec_is_fatal(),
{
}

} // verus!
