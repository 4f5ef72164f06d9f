//! Decoder for the ZE40 battery pack's CAN dialect.
//!
//! Rapid telemetry arrives standalone on standard ids 0x155 (current,
//! state of charge, charge limit), 0x424 (pack temperature), 0x425
//! (energy remaining) and 0x4ae (reading-cycle complete). Diagnostic
//! data (cell voltage banks, balance map, temperature array) arrives as
//! multi-frame responses on 0x7bb to requests the controller sends on
//! 0x79b, one category per request/response round, in a fixed cyclic
//! order: cell bank 1, cell bank 2, balance, temperature.

use vstd::prelude::*;

use crate::frame::{CanFrame, FrameId};
use crate::minmax::MinMax;

verus! {

/// Standard id of the rapid frame carrying current and state of charge.
pub const ID_RAPID_MAIN: u16 = 0x155;

/// Standard id of the rapid frame carrying the pack temperature.
pub const ID_RAPID_TEMP: u16 = 0x424;

/// Standard id of the rapid frame carrying the remaining energy.
pub const ID_RAPID_KWH: u16 = 0x425;

/// Standard id of the frame that closes a rapid reading cycle.
pub const ID_RAPID_END: u16 = 0x4ae;

/// Standard id the battery answers diagnostic requests on.
pub const ID_DIAG_RX: u16 = 0x7bb;

/// Standard id the controller sends diagnostic requests on.
pub const ID_DIAG_TX: u16 = 0x79b;

/// Standard id of the periodic preamble frame.
pub const ID_PREAMBLE: u16 = 0x423;

/// Which diagnostic category a request/response round carries.
#[derive(Clone, Copy, Debug, PartialEq, Eq, Structural)]
pub enum RequestMode {
    /// Cell voltages 1..=62.
    CellBank1,
    /// Cell voltages 63..=96 and the pack voltage.
    CellBank2,
    /// The cell balancing map.
    Balance,
    /// The temperature sensor array.
    Temperature,
}

impl RequestMode {
    /// The category byte carried in the diagnostic exchange.
    pub open spec fn spec_group(self) -> u8 {
        match self {
            RequestMode::CellBank1 => 0x41,
            RequestMode::CellBank2 => 0x42,
            RequestMode::Balance => 0x07,
            RequestMode::Temperature => 0x04,
        }
    }

    pub fn group(self) -> (r: u8)
        ensures
            r == self.spec_group(),
    {
        match self {
            RequestMode::CellBank1 => 0x41,
            RequestMode::CellBank2 => 0x42,
            RequestMode::Balance => 0x07,
            RequestMode::Temperature => 0x04,
        }
    }

    /// The category requested after this one; the cycle wraps after the
    /// temperature array.
    pub open spec fn spec_next(self) -> RequestMode {
        match self {
            RequestMode::CellBank1 => RequestMode::CellBank2,
            RequestMode::CellBank2 => RequestMode::Balance,
            RequestMode::Balance => RequestMode::Temperature,
            RequestMode::Temperature => RequestMode::CellBank1,
        }
    }
}

/// What the battery reported about its own readiness.
#[derive(Clone, Copy, Debug, PartialEq, Eq, Structural)]
pub enum BMSStatus {
    /// No complete rapid cycle seen yet.
    Offline,
    /// A rapid reading cycle has completed.
    BMSReady,
}

/// The pack's gross operating state, as encoded in the preamble frame.
#[derive(Clone, Copy, Debug, PartialEq, Eq, Structural)]
pub enum ChargingState {
    Charging,
    Discharing,
    Driving,
}

/// The alternating key byte the battery expects in the preamble.
#[derive(Clone, Copy, Debug, PartialEq, Eq, Structural)]
pub enum LbcKey {
    X5d,
    Xb2,
}

impl LbcKey {
    pub open spec fn spec_byte(self) -> u8 {
        match self {
            LbcKey::X5d => 0x5d,
            LbcKey::Xb2 => 0xb2,
        }
    }

    pub fn byte(self) -> (r: u8)
        ensures
            r == self.spec_byte(),
    {
        match self {
            LbcKey::X5d => 0x5d,
            LbcKey::Xb2 => 0xb2,
        }
    }
}

/// Why a frame was rejected by the decoder.
#[derive(Clone, Copy, Debug, PartialEq, Eq, Structural)]
pub enum DecodeError {
    /// The frame does not carry the eight data bytes the dialect uses.
    InvalidFrame,
    /// The arbitration id is none the decoder handles.
    UnexpectedId,
    /// A consecutive diagnostic frame arrived with no response open.
    NoResponseOpen,
    /// A consecutive diagnostic frame broke the sequence counter.
    OutOfSequence,
    /// A first frame announced a category the dialect does not define.
    UnknownGroup,
    /// A first frame announced an impossible message length.
    BadLength,
}

/// The big-endian 16-bit value at byte offset `i` of a message.
pub open spec fn be16(msg: Seq<u8>, i: int) -> u16 {
    ((msg[i] as int) * 256 + (msg[i + 1] as int)) as u16
}

/// The current encoded in rapid frame 0x155: a 12-bit raw value offset
/// by 2000 in quarter-amp steps, here in centiamps.
pub open spec fn spec_rapid_current(data: Seq<u8>) -> int {
    (((data[1] as int) % 16) * 256 + (data[2] as int) - 2000) * 25
}

/// The state of charge encoded in rapid frame 0x155, in whole percent.
pub open spec fn spec_rapid_soc(data: Seq<u8>) -> int {
    ((data[4] as int) * 256 + (data[5] as int)) / 400
}

/// The remaining energy encoded in rapid frame 0x425, in
/// centi-kilowatt-hours: a 9-bit raw value in deci-kilowatt-hours.
pub open spec fn spec_rapid_kwh(data: Seq<u8>) -> int {
    (((data[0] as int) % 2) * 256 + (data[1] as int)) * 10
}

/// The pack temperature encoded in rapid frame 0x424, in deci-degrees
/// Celsius: byte 4 offset by 40 degrees.
pub open spec fn spec_rapid_pack_temp(data: Seq<u8>) -> int {
    ((data[4] as int) - 40) * 10
}

/// The working record a ZE40 decoder accumulates, plus the state of the
/// multi-frame diagnostic exchange.
pub struct Data {
    /// State of charge, whole percent.
    pub soc_value: u16,
    /// Charge-current limit requested by the battery, amps.
    pub max_charge_amps: u16,
    /// Pack current, centiamps; negative is discharge.
    pub current_value: i32,
    /// Remaining energy, centi-kilowatt-hours.
    pub kwh_remaining: u32,
    /// Representative pack temperature, deci-degrees Celsius.
    pub pack_temp: i16,
    /// Pack voltage, centivolts; filled by the diagnostic cycle.
    pub pack_volts: u32,
    /// Readiness reported by the rapid cycle.
    pub mode: BMSStatus,
    /// The diagnostic category most recently being received.
    pub req_mode: RequestMode,
    /// Individual cell voltages, millivolts.
    pub cells_mv: [u16; 96],
    /// Lowest/highest cell voltage, millivolts.
    pub cell_mv: MinMax<u16>,
    /// The temperature sensor array, whole degrees Celsius.
    pub temps: [i16; 14],
    /// Lowest/highest sensor temperature, whole degrees Celsius.
    pub temp: MinMax<i16>,
    /// Which cells are balancing.
    pub bal_cells: [bool; 96],
    /// Accumulated diagnostic message bytes (service byte, category
    /// byte, then payload).
    pub buf: Vec<u8>,
    /// Announced total message length, from the first frame.
    pub expected_len: u16,
    /// Next expected consecutive-frame counter, low four bits.
    pub seq: u8,
    /// Whether a diagnostic response is currently being accumulated.
    pub open_group: bool,
}

impl Data {
    /// The telemetry part of the record: everything except the
    /// accumulation state of the diagnostic exchange.
    pub open spec fn telemetry(self) -> (
        u16,
        u16,
        i32,
        u32,
        i16,
        u32,
        BMSStatus,
        Seq<u16>,
        MinMax<u16>,
        Seq<i16>,
        MinMax<i16>,
        Seq<bool>,
    ) {
        (
            self.soc_value,
            self.max_charge_amps,
            self.current_value,
            self.kwh_remaining,
            self.pack_temp,
            self.pack_volts,
            self.mode,
            self.cells_mv@,
            self.cell_mv,
            self.temps@,
            self.temp,
            self.bal_cells@,
        )
    }

    /// A decoder with nothing received yet.
    pub fn new() -> (r: Data)
        ensures
            r.soc_value == 0,
            r.max_charge_amps == 0,
            r.current_value == 0,
            r.kwh_remaining == 0,
            r.pack_volts == 0,
            r.mode == BMSStatus::Offline,
            r.req_mode == RequestMode::CellBank1,
            !r.spec_open_group(),
    {
        Data {
            soc_value: 0,
            max_charge_amps: 0,
            current_value: 0,
            kwh_remaining: 0,
            pack_temp: 0,
            pack_volts: 0,
            mode: BMSStatus::Offline,
            req_mode: RequestMode::CellBank1,
            cells_mv: [0; 96],
            cell_mv: MinMax { min: 0, max: 0 },
            temps: [0; 14],
            temp: MinMax { min: 0, max: 0 },
            bal_cells: [false; 96],
            buf: Vec::new(),
            expected_len: 0,
            seq: 0,
            open_group: false,
        }
    }

    /// Whether a diagnostic response is mid-accumulation.
    pub open spec fn spec_open_group(self) -> bool {
        self.open_group
    }

    /// Consume one standalone rapid telemetry frame. `Ok(true)` means a
    /// reading cycle is complete and the caller should push the
    /// accumulated fields into the fused record. A rejected frame
    /// changes nothing.
    pub fn rapid_data_processor(&mut self, frame: CanFrame) -> (r: Result<bool, DecodeError>)
        ensures
            r is Err ==> *final(self) == *old(self),
            r is Err <==> !(frame.dlc == 8 && (frame.id == FrameId::Standard(ID_RAPID_MAIN)
                || frame.id == FrameId::Standard(ID_RAPID_TEMP) || frame.id == FrameId::Standard(
                ID_RAPID_KWH,
            ) || frame.id == FrameId::Standard(ID_RAPID_END))),
            r is Ok ==> match frame.id {
                FrameId::Standard(id) => {
                    &&& r == Ok::<bool, DecodeError>(id == ID_RAPID_END)
                    &&& id == ID_RAPID_MAIN ==> *final(self) == (Data {
                        max_charge_amps: frame.data@[0] as u16,
                        current_value: spec_rapid_current(frame.data@) as i32,
                        soc_value: spec_rapid_soc(frame.data@) as u16,
                        ..*old(self)
                    })
                    &&& id == ID_RAPID_TEMP ==> *final(self) == (Data {
                        pack_temp: spec_rapid_pack_temp(frame.data@) as i16,
                        ..*old(self)
                    })
                    &&& id == ID_RAPID_KWH ==> *final(self) == (Data {
                        kwh_remaining: spec_rapid_kwh(frame.data@) as u32,
                        ..*old(self)
                    })
                    &&& id == ID_RAPID_END ==> *final(self) == (Data {
                        mode: BMSStatus::BMSReady,
                        ..*old(self)
                    })
                },
                FrameId::Extended(_) => false,
            },
    {
        if frame.dlc != 8 {
            return Err(DecodeError::InvalidFrame);
        }
        let id: u16 = match frame.id {
            FrameId::Standard(id) => id,
            FrameId::Extended(_) => {
                return Err(DecodeError::UnexpectedId);
            },
        };
        if id == ID_RAPID_MAIN {
            self.max_charge_amps = frame.data[0] as u16;
            let raw: u32 = ((frame.data[1] as u32) % 16) * 256 + frame.data[2] as u32;
            self.current_value = (raw as i32 - 2000) * 25;
            let soc_raw: u32 = (frame.data[4] as u32) * 256 + frame.data[5] as u32;
            self.soc_value = (soc_raw / 400) as u16;
            Ok(false)
        } else if id == ID_RAPID_TEMP {
            self.pack_temp = (frame.data[4] as i16 - 40) * 10;
            Ok(false)
        } else if id == ID_RAPID_KWH {
            let raw: u32 = ((frame.data[0] as u32) % 2) * 256 + frame.data[1] as u32;
            self.kwh_remaining = raw * 10;
            Ok(false)
        } else if id == ID_RAPID_END {
            self.mode = BMSStatus::BMSReady;
            Ok(true)
        } else {
            Err(DecodeError::UnexpectedId)
        }
    }

    /// The multi-frame exchange bookkeeping is consistent: while a
    /// response is open, the accumulator holds the first frame's six
    /// message bytes plus whole consecutive frames, the message is still
    /// incomplete, and the announced length matches the open category.
    pub open spec fn diag_wf(self) -> bool {
        self.open_group ==> {
            &&& self.buf@.len() % 7 == 6
            &&& 6 <= self.buf@.len()
            &&& (self.buf@.len() as int) < self.expected_len
            &&& self.expected_len == spec_group_len(self.req_mode)
            &&& self.seq < 16
        }
    }

    /// Consume one frame of a multi-part diagnostic response.
    ///
    /// A first frame opens a category; each consecutive frame extends
    /// it. While the response is incomplete the result is the
    /// flow-control frame to transmit. When the announced length is
    /// reached, the category's fields are committed in one step and the
    /// result is the request frame for the next category — or `None`
    /// after the temperature array, which closes the cycle. A rejected
    /// frame leaves every telemetry field unchanged and drops the
    /// partial response, so no partial data is ever committed.
    pub fn diag_data_processor(&mut self, frame: CanFrame) -> (r: Result<
        Option<CanFrame>,
        DecodeError,
    >)
        requires
            old(self).diag_wf(),
        ensures
            final(self).diag_wf(),
            final(self).rapid_part() == old(self).rapid_part(),
            r is Err ==> final(self).telemetry() == old(self).telemetry() && final(self).req_mode
                == old(self).req_mode && !final(self).spec_open_group(),
            r is Err <==> !(frame.dlc == 8 && frame.id == FrameId::Standard(ID_DIAG_RX) && (
            spec_first_ok(frame) || (old(self).spec_open_group() && frame.data@[0] == 0x20 + (old(
                self,
            ).seq as int)))),
            spec_is_first(frame) && r is Ok ==> {
                &&& r == Ok::<Option<CanFrame>, DecodeError>(Some(flow_control_spec()))
                &&& final(self).spec_open_group()
                &&& Some(final(self).req_mode) == spec_group_mode(frame.data@[3])
                &&& final(self).telemetry() == old(self).telemetry()
                &&& final(self).buf@ == frame.data@.subrange(2, 8)
            },
            old(self).spec_open_group() && spec_is_consecutive(frame, old(self).seq) && old(
                self,
            ).buf@.len() + 7 < old(self).expected_len ==> {
                &&& r == Ok::<Option<CanFrame>, DecodeError>(Some(flow_control_spec()))
                &&& final(self).spec_open_group()
                &&& final(self).req_mode == old(self).req_mode
                &&& final(self).telemetry() == old(self).telemetry()
                &&& final(self).buf@ == spec_msg_after(*old(self), frame)
            },
            old(self).spec_open_group() && spec_is_consecutive(frame, old(self).seq) && old(
                self,
            ).buf@.len() + 7 >= old(self).expected_len ==> {
                let msg = spec_msg_after(*old(self), frame);
                &&& !final(self).spec_open_group()
                &&& final(self).req_mode == old(self).req_mode
                &&& (old(self).req_mode == RequestMode::CellBank1 ==> {
                    &&& r == Ok::<Option<CanFrame>, DecodeError>(Some(request_tx_spec(
                        RequestMode::CellBank2,
                    )))
                    &&& final(self).cells_mv@ == Seq::new(
                        96,
                        |i: int|
                            if 0 <= i < 62 {
                                spec_bank1_cells(msg)[i]
                            } else {
                                old(self).cells_mv@[i]
                            },
                    )
                    &&& final(self).cell_mv == old(self).cell_mv
                    &&& final(self).pack_volts == old(self).pack_volts
                    &&& final(self).temps@ == old(self).temps@
                    &&& final(self).temp == old(self).temp
                    &&& final(self).bal_cells@ == old(self).bal_cells@
                })
                &&& (old(self).req_mode == RequestMode::CellBank2 ==> {
                    &&& r == Ok::<Option<CanFrame>, DecodeError>(Some(request_tx_spec(
                        RequestMode::Balance,
                    )))
                    &&& final(self).cells_mv@ == Seq::new(
                        96,
                        |i: int|
                            if 62 <= i < 96 {
                                spec_bank2_cells(msg)[i - 62]
                            } else {
                                old(self).cells_mv@[i]
                            },
                    )
                    &&& final(self).pack_volts == spec_bank2_pack_volts(msg) as u32
                    &&& final(self).cell_mv == (MinMax::<u16> {
                        min: crate::bms::seq_min_u16(final(self).cells_mv@),
                        max: crate::bms::seq_max_u16(final(self).cells_mv@),
                    })
                    &&& final(self).temps@ == old(self).temps@
                    &&& final(self).temp == old(self).temp
                    &&& final(self).bal_cells@ == old(self).bal_cells@
                })
                &&& (old(self).req_mode == RequestMode::Balance ==> {
                    &&& r == Ok::<Option<CanFrame>, DecodeError>(Some(request_tx_spec(
                        RequestMode::Temperature,
                    )))
                    &&& final(self).bal_cells@ == Seq::new(
                        96,
                        |i: int| 0 <= i < 52 && spec_bal_cell(msg, i),
                    )
                    &&& final(self).cells_mv@ == old(self).cells_mv@
                    &&& final(self).cell_mv == old(self).cell_mv
                    &&& final(self).pack_volts == old(self).pack_volts
                    &&& final(self).temps@ == old(self).temps@
                    &&& final(self).temp == old(self).temp
                })
                &&& (old(self).req_mode == RequestMode::Temperature ==> {
                    &&& r == Ok::<Option<CanFrame>, DecodeError>(None)
                    &&& final(self).temps@ == spec_temps(msg)
                    &&& final(self).temp == (MinMax::<i16> {
                        min: seq_min_i16(spec_temps(msg)),
                        max: seq_max_i16(spec_temps(msg)),
                    })
                    &&& final(self).cells_mv@ == old(self).cells_mv@
                    &&& final(self).cell_mv == old(self).cell_mv
                    &&& final(self).pack_volts == old(self).pack_volts
                    &&& final(self).bal_cells@ == old(self).bal_cells@
                })
            },
    {
        if frame.dlc != 8 {
            self.open_group = false;
            return Err(DecodeError::InvalidFrame);
        }
        let on_diag = match frame.id {
            FrameId::Standard(id) => id == ID_DIAG_RX,
            FrameId::Extended(_) => false,
        };
        if !on_diag {
            self.open_group = false;
            return Err(DecodeError::UnexpectedId);
        }
        let b0 = frame.data[0];
        if b0 == 0x10 {
            if frame.data[2] != 0x61 {
                self.open_group = false;
                return Err(DecodeError::UnknownGroup);
            }
            let mode = match group_mode(frame.data[3]) {
                Some(m) => m,
                None => {
                    self.open_group = false;
                    return Err(DecodeError::UnknownGroup);
                },
            };
            if frame.data[1] as u16 != group_len(mode) {
                self.open_group = false;
                return Err(DecodeError::BadLength);
            }
            let mut v: Vec<u8> = Vec::new();
            v.push(frame.data[2]);
            v.push(frame.data[3]);
            v.push(frame.data[4]);
            v.push(frame.data[5]);
            v.push(frame.data[6]);
            v.push(frame.data[7]);
            proof {
                assert(v@ =~= frame.data@.subrange(2, 8));
            }
            self.req_mode = mode;
            self.expected_len = frame.data[1] as u16;
            self.buf = v;
            self.seq = 1;
            self.open_group = true;
            Ok(Some(flow_control_frame()))
        } else if self.open_group && b0 == 0x20 + self.seq {
            self.buf.push(frame.data[1]);
            self.buf.push(frame.data[2]);
            self.buf.push(frame.data[3]);
            self.buf.push(frame.data[4]);
            self.buf.push(frame.data[5]);
            self.buf.push(frame.data[6]);
            self.buf.push(frame.data[7]);
            proof {
                assert(self.buf@ =~= spec_msg_after(*old(self), frame));
            }
            self.seq = if self.seq == 15 {
                0
            } else {
                self.seq + 1
            };
            if self.buf.len() >= self.expected_len as usize {
                let mut msg: Vec<u8> = Vec::new();
                core::mem::swap(&mut msg, &mut self.buf);
                self.open_group = false;
                match self.req_mode {
                    RequestMode::CellBank1 => {
                        parse_cells_into(&msg, &mut self.cells_mv, 0, 62);
                        Ok(Some(CanFrame::new8(
                            FrameId::Standard(ID_DIAG_TX),
                            [2, 0x21, 0x42, 0, 0, 0, 0, 0],
                        )))
                    },
                    RequestMode::CellBank2 => {
                        parse_cells_into(&msg, &mut self.cells_mv, 62, 34);
                        let hi = msg[70];
                        let lo = msg[71];
                        self.pack_volts = ((hi as u32) * 256 + (lo as u32)) as u32;
                        let (low, high) = cells_range(&self.cells_mv);
                        self.cell_mv = MinMax { min: low, max: high };
                        Ok(Some(CanFrame::new8(
                            FrameId::Standard(ID_DIAG_TX),
                            [2, 0x21, 0x07, 0, 0, 0, 0, 0],
                        )))
                    },
                    RequestMode::Balance => {
                        parse_balance_into(&msg, &mut self.bal_cells);
                        Ok(Some(CanFrame::new8(
                            FrameId::Standard(ID_DIAG_TX),
                            [2, 0x21, 0x04, 0, 0, 0, 0, 0],
                        )))
                    },
                    RequestMode::Temperature => {
                        parse_temps_into(&msg, &mut self.temps);
                        let (low, high) = temps_range(&self.temps);
                        self.temp = MinMax { min: low, max: high };
                        Ok(None)
                    },
                }
            } else {
                Ok(Some(flow_control_frame()))
            }
        } else {
            let was_open = self.open_group;
            self.open_group = false;
            if b0 >= 0x20 && b0 <= 0x2f {
                if !was_open {
                    Err(DecodeError::NoResponseOpen)
                } else {
                    Err(DecodeError::OutOfSequence)
                }
            } else {
                Err(DecodeError::InvalidFrame)
            }
        }
    }

    /// The number of cells the balance map marks as balancing.
    pub fn get_balance_cells(&self) -> (r: u16)
        ensures
            r == crate::bms::count_true(self.bal_cells@),
    {
        let mut count: u16 = 0;
        let mut i: usize = 0;
        while i < 96
            invariant
                i <= 96,
                count == crate::bms::count_true(self.bal_cells@.take(i as int)),
                count <= i,
                self.bal_cells@.len() == 96,
            decreases 96 - i,
        {
            proof {
                assert(self.bal_cells@.take(i + 1) =~= self.bal_cells@.take(i as int).push(
                    self.bal_cells@[i as int],
                ));
                crate::bms::lemma_count_true_push(
                    self.bal_cells@.take(i as int),
                    self.bal_cells@[i as int],
                );
            }
            if self.bal_cells[i] {
                count = count + 1;
            }
            i = i + 1;
        }
        proof {
            assert(self.bal_cells@.take(96) =~= self.bal_cells@);
        }
        count
    }

    /// The rapid-telemetry part of the record, which the diagnostic
    /// exchange never touches.
    pub open spec fn rapid_part(self) -> (u16, u16, i32, u32, i16, BMSStatus) {
        (
            self.soc_value,
            self.max_charge_amps,
            self.current_value,
            self.kwh_remaining,
            self.pack_temp,
            self.mode,
        )
    }
}

/// Total announced message length for each diagnostic category: the two
/// service bytes plus 124 cell bytes for bank 1; 68 cell bytes, the
/// pack voltage and a spare word for bank 2; 12 map bytes for the
/// balance map; 75 sensor bytes for the temperature array.
pub open spec fn spec_group_len(m: RequestMode) -> u16 {
    match m {
        RequestMode::CellBank1 => 126,
        RequestMode::CellBank2 => 74,
        RequestMode::Balance => 14,
        RequestMode::Temperature => 77,
    }
}

fn group_len(m: RequestMode) -> (r: u16)
    ensures
        r == spec_group_len(m),
{
    match m {
        RequestMode::CellBank1 => 126,
        RequestMode::CellBank2 => 74,
        RequestMode::Balance => 14,
        RequestMode::Temperature => 77,
    }
}

/// The 62 cell voltages of bank 1, big-endian millivolt words starting
/// after the two service bytes.
pub open spec fn spec_bank1_cells(msg: Seq<u8>) -> Seq<u16> {
    Seq::new(62, |i: int| be16(msg, 2 + 2 * i))
}

/// The 34 cell voltages of bank 2.
pub open spec fn spec_bank2_cells(msg: Seq<u8>) -> Seq<u16> {
    Seq::new(34, |i: int| be16(msg, 2 + 2 * i))
}

/// The pack voltage word of bank 2, centivolts, after the 34 cells.
pub open spec fn spec_bank2_pack_volts(msg: Seq<u8>) -> u16 {
    be16(msg, 70)
}

/// The place value of bit `r` of a byte, most significant first.
pub open spec fn spec_bit_weight(r: int) -> u8 {
    if r == 0 {
        128
    } else if r == 1 {
        64
    } else if r == 2 {
        32
    } else if r == 3 {
        16
    } else if r == 4 {
        8
    } else if r == 5 {
        4
    } else if r == 6 {
        2
    } else {
        1
    }
}

fn bit_weight(r: usize) -> (w: u8)
    requires
        r < 8,
    ensures
        w == spec_bit_weight(r as int),
        w >= 1,
{
    if r == 0 {
        128
    } else if r == 1 {
        64
    } else if r == 2 {
        32
    } else if r == 3 {
        16
    } else if r == 4 {
        8
    } else if r == 5 {
        4
    } else if r == 6 {
        2
    } else {
        1
    }
}

/// Bit `k` of the balance map, most significant bit of each byte first;
/// the map starts after the two service bytes.
pub open spec fn spec_bal_bit(msg: Seq<u8>, k: int) -> bool {
    ((msg[2 + k / 8] as int) / (spec_bit_weight(k % 8) as int)) % 2 == 1
}

/// Whether cell `i` is balancing: the map carries two bits per cell,
/// and the cell counts as balancing when either is set.
pub open spec fn spec_bal_cell(msg: Seq<u8>, i: int) -> bool {
    spec_bal_bit(msg, 2 * i) || spec_bal_bit(msg, 2 * i + 1)
}

/// The 14 sensor temperatures, whole degrees Celsius: the third byte of
/// each three-byte sensor record, offset by 40 degrees.
pub open spec fn spec_temps(msg: Seq<u8>) -> Seq<i16> {
    Seq::new(14, |i: int| ((msg[4 + 3 * i] as int) - 40) as i16)
}

/// The smallest entry of a non-empty i16 sequence.
pub open spec fn seq_min_i16(s: Seq<i16>) -> i16
    decreases s.len(),
{
    if s.len() <= 1 {
        s[0]
    } else if s.last() < seq_min_i16(s.drop_last()) {
        s.last()
    } else {
        seq_min_i16(s.drop_last())
    }
}

/// The largest entry of a non-empty i16 sequence.
pub open spec fn seq_max_i16(s: Seq<i16>) -> i16
    decreases s.len(),
{
    if s.len() <= 1 {
        s[0]
    } else if s.last() > seq_max_i16(s.drop_last()) {
        s.last()
    } else {
        seq_max_i16(s.drop_last())
    }
}

/// A correctly addressed first frame of a diagnostic response.
pub open spec fn spec_is_first(frame: CanFrame) -> bool {
    frame.dlc == 8 && frame.id == FrameId::Standard(ID_DIAG_RX) && frame.data@[0] == 0x10
}

/// A correctly addressed consecutive frame carrying counter `seq`.
pub open spec fn spec_is_consecutive(frame: CanFrame, seq: u8) -> bool {
    frame.dlc == 8 && frame.id == FrameId::Standard(ID_DIAG_RX) && frame.data@[0] == 0x20 + (
    seq as int)
}

/// The accumulated message after appending a consecutive frame's seven
/// data bytes.
pub open spec fn spec_msg_after(d: Data, frame: CanFrame) -> Seq<u8> {
    d.buf@ + frame.data@.subrange(1, 8)
}

/// The diagnostic request cycle is strictly ordered and wraps: from
/// any category, four rounds return to it, visiting each category
/// exactly once on the way.
pub proof fn lemma_request_cycle(m: RequestMode)
    ensures
        m.spec_next().spec_next().spec_next().spec_next() == m,
        m.spec_next() != m,
        m.spec_next().spec_next() != m,
        m.spec_next().spec_next().spec_next() != m,
{
}

/// The flow-control frame, as a specification value.
pub open spec fn flow_control_spec() -> CanFrame {
    CanFrame {
        id: FrameId::Standard(ID_DIAG_TX),
        data: [0x30u8, 1u8, 0x64u8, 0u8, 0u8, 0u8, 0u8, 0u8],
        dlc: 8u8,
    }
}

/// The request frame for a category, as a specification value.
pub open spec fn request_tx_spec(mode: RequestMode) -> CanFrame {
    CanFrame {
        id: FrameId::Standard(ID_DIAG_TX),
        data: [2u8, 0x21u8, mode.spec_group(), 0u8, 0u8, 0u8, 0u8, 0u8],
        dlc: 8u8,
    }
}

/// A first frame that opens a category correctly: right service byte,
/// known category, announced length matching the category.
pub open spec fn spec_first_ok(frame: CanFrame) -> bool {
    &&& frame.data@[0] == 0x10
    &&& frame.data@[2] == 0x61
    &&& spec_group_mode(frame.data@[3]) is Some
    &&& frame.data@[1] == spec_group_len(spec_group_mode(frame.data@[3]).unwrap())
}

/// Which category a first frame's group byte announces.
pub open spec fn spec_group_mode(g: u8) -> Option<RequestMode> {
    if g == 0x41 {
        Some(RequestMode::CellBank1)
    } else if g == 0x42 {
        Some(RequestMode::CellBank2)
    } else if g == 0x07 {
        Some(RequestMode::Balance)
    } else if g == 0x04 {
        Some(RequestMode::Temperature)
    } else {
        None
    }
}

fn group_mode(g: u8) -> (r: Option<RequestMode>)
    ensures
        r == spec_group_mode(g),
{
    if g == 0x41 {
        Some(RequestMode::CellBank1)
    } else if g == 0x42 {
        Some(RequestMode::CellBank2)
    } else if g == 0x07 {
        Some(RequestMode::Balance)
    } else if g == 0x04 {
        Some(RequestMode::Temperature)
    } else {
        None
    }
}

/// Write `count` big-endian millivolt words from a message into the
/// cell array starting at `start`; cells outside the window keep their
/// values.
fn parse_cells_into(msg: &Vec<u8>, cells: &mut [u16; 96], start: usize, count: usize)
    requires
        start + count <= 96,
        msg@.len() >= 2 + 2 * count,
    ensures
        final(cells)@ == Seq::new(
            96,
            |i: int|
                if start <= i < start + count {
                    be16(msg@, 2 + 2 * (i - start))
                } else {
                    old(cells)@[i]
                },
        ),
{
    let mut i: usize = 0;
    while i < count
        invariant
            i <= count,
            start + count <= 96,
            msg@.len() >= 2 + 2 * count,
            cells@.len() == 96,
            forall|j: int|
                0 <= j < 96 ==> cells@[j] == if start <= j < start + i {
                    be16(msg@, 2 + 2 * (j - start))
                } else {
                    old(cells)@[j]
                },
        decreases count - i,
    {
        let hi = msg[2 + 2 * i];
        let lo = msg[3 + 2 * i];
        cells[start + i] = (hi as u16) * 256 + (lo as u16);
        i = i + 1;
    }
    proof {
        assert(cells@ =~= Seq::new(
            96,
            |i: int|
                if start <= i < start + count {
                    be16(msg@, 2 + 2 * (i - start))
                } else {
                    old(cells)@[i]
                },
        ));
    }
}

/// Fill the balancing map from a message: two bits per cell, cells
/// beyond the map cleared.
fn parse_balance_into(msg: &Vec<u8>, bal: &mut [bool; 96])
    requires
        msg@.len() >= 15,
    ensures
        final(bal)@ == Seq::new(96, |i: int| 0 <= i < 52 && spec_bal_cell(msg@, i)),
{
    let mut i: usize = 0;
    while i < 96
        invariant
            i <= 96,
            msg@.len() >= 15,
            bal@.len() == 96,
            forall|j: int| #![trigger bal@[j]]
                0 <= j < 96 ==> bal@[j] == if 0 <= j < i {
                    j < 52 && spec_bal_cell(msg@, j)
                } else {
                    old(bal)@[j]
                },
        decreases 96 - i,
    {
        if i < 52 {
            let k1: usize = 2 * i;
            let k2: usize = 2 * i + 1;
            let b1 = msg[2 + k1 / 8];
            let w1 = bit_weight(k1 % 8);
            let b2 = msg[2 + k2 / 8];
            let w2 = bit_weight(k2 % 8);
            bal[i] = (b1 / w1) % 2 == 1 || (b2 / w2) % 2 == 1;
            proof {
                assert(((b1 / w1) % 2 == 1) == spec_bal_bit(msg@, 2 * (i as int)));
                assert(((b2 / w2) % 2 == 1) == spec_bal_bit(msg@, 2 * (i as int) + 1));
            }
        } else {
            bal[i] = false;
        }
        i = i + 1;
    }
    proof {
        assert(bal@ =~= Seq::new(96, |i: int| 0 <= i < 52 && spec_bal_cell(msg@, i)));
    }
}

/// Fill the temperature array from a message.
fn parse_temps_into(msg: &Vec<u8>, temps: &mut [i16; 14])
    requires
        msg@.len() >= 44,
    ensures
        final(temps)@ == spec_temps(msg@),
{
    let mut i: usize = 0;
    while i < 14
        invariant
            i <= 14,
            msg@.len() >= 44,
            temps@.len() == 14,
            forall|j: int| 0 <= j < i ==> temps@[j] == spec_temps(msg@)[j],
        decreases 14 - i,
    {
        let raw = msg[4 + 3 * i];
        temps[i] = raw as i16 - 40;
        i = i + 1;
    }
    proof {
        assert(temps@ =~= spec_temps(msg@));
    }
}

/// The smallest and largest entry of the cell array.
fn cells_range(cells: &[u16; 96]) -> (r: (u16, u16))
    ensures
        r.0 == crate::bms::seq_min_u16(cells@),
        r.1 == crate::bms::seq_max_u16(cells@),
{
    let mut low: u16 = cells[0];
    let mut high: u16 = cells[0];
    let mut i: usize = 1;
    proof {
        assert(cells@.take(1).len() == 1);
        assert(cells@.take(1)[0] == cells@[0]);
    }
    while i < 96
        invariant
            1 <= i <= 96,
            cells@.len() == 96,
            low == crate::bms::seq_min_u16(cells@.take(i as int)),
            high == crate::bms::seq_max_u16(cells@.take(i as int)),
        decreases 96 - i,
    {
        proof {
            let t = cells@.take(i + 1);
            assert(t.drop_last() =~= cells@.take(i as int));
            assert(t.last() == cells@[i as int]);
        }
        if cells[i] < low {
            low = cells[i];
        }
        if cells[i] > high {
            high = cells[i];
        }
        i = i + 1;
    }
    proof {
        assert(cells@.take(96) =~= cells@);
    }
    (low, high)
}

/// The smallest and largest entry of the temperature array.
fn temps_range(temps: &[i16; 14]) -> (r: (i16, i16))
    ensures
        r.0 == seq_min_i16(temps@),
        r.1 == seq_max_i16(temps@),
{
    let mut low: i16 = temps[0];
    let mut high: i16 = temps[0];
    let mut i: usize = 1;
    proof {
        assert(temps@.take(1).len() == 1);
        assert(temps@.take(1)[0] == temps@[0]);
    }
    while i < 14
        invariant
            1 <= i <= 14,
            temps@.len() == 14,
            low == seq_min_i16(temps@.take(i as int)),
            high == seq_max_i16(temps@.take(i as int)),
        decreases 14 - i,
    {
        proof {
            let t = temps@.take(i + 1);
            assert(t.drop_last() =~= temps@.take(i as int));
            assert(t.last() == temps@[i as int]);
        }
        if temps[i] < low {
            low = temps[i];
        }
        if temps[i] > high {
            high = temps[i];
        }
        i = i + 1;
    }
    proof {
        assert(temps@.take(14) =~= temps@);
    }
    (low, high)
}

/// The diagnostic request frame that opens a category's round.
pub fn request_tx_frame(mode: RequestMode) -> (r: Option<CanFrame>)
    ensures
        r == Some(
            CanFrame {
                id: FrameId::Standard(ID_DIAG_TX),
                data: [2u8, 0x21u8, mode.spec_group(), 0u8, 0u8, 0u8, 0u8, 0u8],
                dlc: 8u8,
            },
        ),
{
    Some(
        CanFrame::new8(
            FrameId::Standard(ID_DIAG_TX),
            [2, 0x21, mode.group(), 0, 0, 0, 0, 0],
        ),
    )
}

/// The flow-control frame acknowledging a diagnostic frame mid-response.
pub fn flow_control_frame() -> (r: CanFrame)
    ensures
        r == (CanFrame {
            id: FrameId::Standard(ID_DIAG_TX),
            data: [0x30u8, 1u8, 0x64u8, 0u8, 0u8, 0u8, 0u8, 0u8],
            dlc: 8u8,
        }),
{
    CanFrame::new8(FrameId::Standard(ID_DIAG_TX), [0x30, 1, 0x64, 0, 0, 0, 0, 0])
}

/// The periodic preamble frame on 0x423.
///
/// With a key in hand, the frame encodes the operating state (charging
/// or driving) and repeats the key; without one, charging and driving
/// ask for a transition, and a discharging pack with a key is sent the
/// idle word.
pub open spec fn spec_request_frame(state: ChargingState, key: Option<LbcKey>) -> [u8; 8] {
    match (state, key) {
        (ChargingState::Charging, Some(k)) => [
            0x07u8,
            0x1du8,
            0u8,
            2u8,
            k.spec_byte(),
            0x80u8,
            k.spec_byte(),
            200u8,
        ],
        (ChargingState::Driving, Some(k)) => [
            0x0bu8,
            0x1du8,
            0u8,
            2u8,
            k.spec_byte(),
            0x80u8,
            k.spec_byte(),
            200u8,
        ],
        (ChargingState::Discharing, Some(_)) => [
            0x30u8,
            0x7fu8,
            0xffu8,
            0xffu8,
            0xffu8,
            0xe0u8,
            0xffu8,
            0xffu8,
        ],
        (_, None) => [0x33u8, 0x7fu8, 0xffu8, 0xffu8, 0xffu8, 0xe0u8, 0xffu8, 0xffu8],
    }
}

/// Build the periodic preamble frame for the given operating state and
/// key. Always yields a frame; the `Option` mirrors the transmit queue's
/// interface.
pub fn request_frame(state: ChargingState, key: &Option<LbcKey>) -> (r: Option<CanFrame>)
    ensures
        r == Some(
            CanFrame {
                id: FrameId::Standard(ID_PREAMBLE),
                data: spec_request_frame(state, *key),
                dlc: 8u8,
            },
        ),
{
    let data: [u8; 8] = match (state, key) {
        (ChargingState::Charging, Some(k)) => {
            let kb = k.byte();
            [0x07, 0x1d, 0, 2, kb, 0x80, kb, 200]
        },
        (ChargingState::Driving, Some(k)) => {
            let kb = k.byte();
            [0x0b, 0x1d, 0, 2, kb, 0x80, kb, 200]
        },
        (ChargingState::Discharing, Some(_)) => [0x30, 0x7f, 0xff, 0xff, 0xff, 0xe0, 0xff, 0xff],
        (_, None) => [0x33, 0x7f, 0xff, 0xff, 0xff, 0xe0, 0xff, 0xff],
    };
    Some(CanFrame::new8(FrameId::Standard(ID_PREAMBLE), data))
}

} // verus!
