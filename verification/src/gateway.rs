//! The decision cores of the gateway's tasks.
//!
//! Each long-running task of the firmware — the battery receive loop,
//! the periodic battery transmit loop, the inverter receive loop — is
//! split into the outside work (bus reads and writes, timers, the
//! mutex) and a pure decision: given the event and the current state,
//! what changes and what must be sent. The decisions live here; the
//! loops around them only perform the returned actions.

use vstd::prelude::*;

use crate::bms::{Bms, BmsError};
use crate::contactor::DebouncedSignal;
use crate::frame::{CanFrame, FrameId};
use crate::minmax::MinMax;
use crate::solax::{spec_status_frames, SolaxBms, ID_SOLAX_ANNOUNCE};
use crate::store::{spec_committed, spec_rejected, FusedState};
use crate::ze40::{Data, LbcKey};

verus! {

/// Telemetry older than this is stale and opens the contactor,
/// milliseconds.
pub const LAST_READING_TIMEOUT_MS: u64 = 10000;

/// Whether the configured plausible ranges accept a rapid reading:
/// the current within the sensor range, the scaled state of charge,
/// pack temperature and charge limit within theirs, under a
/// well-formed configuration.
pub open spec fn spec_rapid_accepted(cfg: crate::bms::BmsConfig, d: Data) -> bool {
    &&& cfg.wf()
    &&& cfg.current_sensor.min <= d.current_value <= cfg.current_sensor.max
    &&& cfg.soc.min <= d.soc_value * 10 <= cfg.soc.max
    &&& cfg.pack_temperatures.min <= d.pack_temp <= cfg.pack_temperatures.max
    &&& cfg.charge_current.min <= d.max_charge_amps * 10 <= cfg.charge_current.max
}

/// Push a completed rapid reading cycle into the fused record: current,
/// state of charge, remaining energy and pack temperature, plus the
/// charge limit the battery asked for, committed in one update.
///
/// The commit succeeds if and only if the configured plausible ranges
/// accept the reading; the record is then exactly the old one with the
/// rapid fields replaced, the envelope recomputed inline and the valid
/// flag raised. On rejection the record keeps its old telemetry with
/// the valid flag lowered.
pub fn commit_rapid_reading(store: &mut FusedState, d: &Data, now_ms: u64) -> (r: Result<
    (),
    BmsError,
>)
    requires
        d.soc_value <= 6000,
        d.max_charge_amps <= 6000,
    ensures
        (r is Ok) == spec_rapid_accepted(old(store)@.config, *d),
        r is Ok ==> final(store)@ == spec_committed(
            spec_rapid_patch(spec_rejected(old(store)@), *d),
        ) && final(store).spec_last_update() == Some(now_ms),
        r is Err ==> final(store)@ == spec_rejected(old(store)@) && !final(store)@.valid
            && final(store).spec_last_update() == old(store).spec_last_update(),
{
    let soc_deci: u16 = d.soc_value * 10;
    let amps_deci: u16 = d.max_charge_amps * 10;
    let current = d.current_value;
    let kwh = d.kwh_remaining;
    let pack_temp = d.pack_temp;
    let f = |b: Bms| -> (out: Result<Bms, BmsError>)
        ensures
            out matches Ok(nb) ==> nb == spec_rapid_patch_vals(
                b,
                current,
                soc_deci,
                kwh,
                pack_temp,
                amps_deci,
            ),
            (out is Ok) == {
                &&& b.config.current_sensor.min <= current <= b.config.current_sensor.max
                &&& b.config.soc.min <= soc_deci <= b.config.soc.max
                &&& b.config.pack_temperatures.min <= pack_temp
                    <= b.config.pack_temperatures.max
                &&& b.config.charge_current.min <= amps_deci <= b.config.charge_current.max
            },
        {
            let mut b = b;
            b.set_current(current)?;
            b.set_soc(soc_deci)?;
            b.set_kwh(kwh)?;
            b.set_pack_temp(pack_temp)?;
            b.set_max_charge_amps(amps_deci)?;
            Ok(b)
        };
    let r = store.update(f, now_ms);
    match r {
        Ok(()) => Ok(()),
        Err(e) => Err(e),
    }
}

/// The fused record after a rapid patch, before the envelope runs.
pub open spec fn spec_rapid_patch(b: Bms, d: Data) -> Bms {
    spec_rapid_patch_vals(
        b,
        d.current_value,
        (d.soc_value * 10) as u16,
        d.kwh_remaining,
        d.pack_temp,
        (d.max_charge_amps * 10) as u16,
    )
}

/// The fused record with the rapid-cycle fields replaced.
pub open spec fn spec_rapid_patch_vals(
    b: Bms,
    current: i32,
    soc_deci: u16,
    kwh: u32,
    pack_temp: i16,
    amps_deci: u16,
) -> Bms {
    Bms {
        current,
        soc: soc_deci,
        kwh_remaining: kwh,
        temp: pack_temp,
        charge_max: amps_deci,
        ..b
    }
}

/// The fused record with the diagnostic-cycle fields replaced: the
/// balance map, the cell array with its derived range and spread, the
/// pack voltage, the scaled temperature range, the battery's charge
/// limit and the fixed discharge ceiling.
pub open spec fn spec_diag_patch(b: Bms, d: Data) -> Bms {
    Bms {
        bal_cells: d.bal_cells,
        discharge_max: 350u16,
        cell_mv: d.cells_mv,
        cell_range_mv: MinMax {
            min: crate::bms::seq_min_u16(d.cells_mv@),
            max: crate::bms::seq_max_u16(d.cells_mv@),
        },
        cell_delta_mv: (crate::bms::seq_max_u16(d.cells_mv@) - crate::bms::seq_min_u16(
            d.cells_mv@,
        )) as u16,
        pack_volts: d.pack_volts,
        temps: MinMax { min: (d.temp.min * 10) as i16, max: (d.temp.max * 10) as i16 },
        charge_max: (d.max_charge_amps * 10) as u16,
        ..b
    }
}

/// Whether the configured plausible ranges accept a diagnostic
/// reading: every cell and the spread within the cell bounds, the
/// pack voltage, the scaled temperatures, the charge limit and the
/// fixed discharge ceiling within theirs, under a well-formed
/// configuration.
pub open spec fn spec_diag_accepted(cfg: crate::bms::BmsConfig, d: Data) -> bool {
    &&& cfg.wf()
    &&& cfg.discharge_current.min <= 350 <= cfg.discharge_current.max
    &&& cfg.cells_mv.min <= crate::bms::seq_min_u16(d.cells_mv@)
    &&& crate::bms::seq_max_u16(d.cells_mv@) <= cfg.cells_mv.max
    &&& crate::bms::seq_max_u16(d.cells_mv@) - crate::bms::seq_min_u16(d.cells_mv@)
        <= cfg.cell_millivolt_delta_max
    &&& cfg.pack_volts.min <= d.pack_volts <= cfg.pack_volts.max
    &&& cfg.pack_temperatures.min <= d.temp.min * 10
    &&& d.temp.min <= d.temp.max
    &&& d.temp.max * 10 <= cfg.pack_temperatures.max
    &&& cfg.charge_current.min <= d.max_charge_amps * 10 <= cfg.charge_current.max
}

/// Push a completed diagnostic cycle into the fused record: the cell
/// voltage array and range, the pack voltage, the temperature range and
/// the balance map, with the battery's charge limit and the fixed
/// discharge ceiling, committed in one update.
///
/// The commit succeeds if and only if the configured plausible ranges
/// accept the reading; the record is then exactly the old one with the
/// diagnostic fields replaced, the envelope recomputed inline and the
/// valid flag raised. On rejection the record keeps its old telemetry
/// with the valid flag lowered.
pub fn commit_diag_reading(store: &mut FusedState, d: &Data, now_ms: u64) -> (r: Result<
    (),
    BmsError,
>)
    requires
        d.max_charge_amps <= 6000,
        -3000 <= d.temp.min,
        d.temp.min <= d.temp.max,
        d.temp.max <= 3000,
    ensures
        (r is Ok) == spec_diag_accepted(old(store)@.config, *d),
        r is Ok ==> final(store)@ == spec_committed(
            spec_diag_patch(spec_rejected(old(store)@), *d),
        ) && final(store).spec_last_update() == Some(now_ms),
        r is Err ==> final(store)@ == spec_rejected(old(store)@) && !final(store)@.valid
            && final(store).spec_last_update() == old(store).spec_last_update(),
{
    let cells = d.cells_mv;
    let bal = d.bal_cells;
    let pack_volts = d.pack_volts;
    let tmin: i16 = d.temp.min * 10;
    let tmax: i16 = d.temp.max * 10;
    let amps_deci: u16 = d.max_charge_amps * 10;
    let ghost dd: Data = *d;
    let f = |b: Bms| -> (out: Result<Bms, BmsError>)
        ensures
            out matches Ok(nb) ==> nb == spec_diag_patch(b, dd),
            (out is Ok) == {
                &&& b.config.discharge_current.min <= 350 <= b.config.discharge_current.max
                &&& b.config.cells_mv.min <= crate::bms::seq_min_u16(cells@)
                &&& crate::bms::seq_max_u16(cells@) <= b.config.cells_mv.max
                &&& crate::bms::seq_max_u16(cells@) - crate::bms::seq_min_u16(cells@)
                    <= b.config.cell_millivolt_delta_max
                &&& b.config.pack_volts.min <= pack_volts <= b.config.pack_volts.max
                &&& tmin <= tmax
                &&& b.config.pack_temperatures.min <= tmin
                &&& tmax <= b.config.pack_temperatures.max
                &&& b.config.charge_current.min <= amps_deci <= b.config.charge_current.max
            },
        {
            let mut b = b;
            b.bal_cells = bal;
            b.set_max_discharge_amps(350)?;
            b.set_cell_mv(cells)?;
            b.set_pack_volts(pack_volts)?;
            b.set_temps(tmin, tmax)?;
            b.set_max_charge_amps(amps_deci)?;
            Ok(b)
        };
    let r = store.update(f, now_ms);
    match r {
        Ok(()) => Ok(()),
        Err(e) => Err(e),
    }
}

/// What the inverter receive loop decided for one inbound frame.
pub enum InverterOutcome {
    /// The fused record is stale or was never written: answer nothing.
    Stale,
    /// Status frames to transmit.
    Reply(Vec<CanFrame>),
    /// A benign condition: answer nothing, change nothing.
    Skip,
}

/// The inverter receive loop's state: the translator and the
/// two-good-readings debounce toward the contactor.
pub struct InverterLink {
    pub solax: SolaxBms,
    pub link: DebouncedSignal,
}

impl InverterLink {
    pub fn new() -> (r: InverterLink)
        ensures
            !r.solax.announce_sent,
            !r.link.primed,
    {
        InverterLink { solax: SolaxBms::new(), link: DebouncedSignal::new() }
    }

    /// Decide one cycle of the inverter receive loop.
    ///
    /// A stale fused record answers nothing and signals the contactor
    /// open at once, whatever the inverter sent. Otherwise the frame is
    /// translated: a reply or a fatal error feeds the debounce (so the
    /// contactor closes only after two consecutive good cycles), and a
    /// benign error skips the cycle leaving the signal untouched.
    pub fn poll(&mut self, frame: CanFrame, bms: &Bms, bms_fresh: bool) -> (r: (
        InverterOutcome,
        Option<bool>,
    ))
        ensures
            !bms_fresh ==> r.1 == Some(false) && (r.0 matches InverterOutcome::Stale)
                && *final(self) == *old(self),
            bms_fresh ==> match spec_poll_class(frame) {
                PollClass::Benign => {
                    &&& r.1 is None
                    &&& r.0 matches InverterOutcome::Skip
                    &&& final(self).link == old(self).link
                    &&& final(self).solax == old(self).solax
                },
                PollClass::Fatal => {
                    &&& r.1 == Some(false)
                    &&& r.0 matches InverterOutcome::Skip
                    &&& final(self).link.primed == false
                    &&& final(self).solax == old(self).solax
                },
                PollClass::Good => {
                    &&& r.1 == Some(old(self).link.primed)
                    &&& final(self).link.primed == true
                    &&& final(self).solax.announce_sent
                    &&& (r.0 matches InverterOutcome::Reply(v) && v@ =~= (
                    if old(self).solax.announce_sent {
                        spec_status_frames(*bms)
                    } else {
                        seq![
                            CanFrame {
                                id: FrameId::Extended(ID_SOLAX_ANNOUNCE),
                                data: [0u8, 0u8, 0u8, 0u8, 0u8, 0u8, 0u8, 0u8],
                                dlc: 0u8,
                            },
                        ]
                    }))
                },
            },
    {
        if !bms_fresh {
            return (InverterOutcome::Stale, Some(false));
        }
        match self.solax.parser(frame, bms, true) {
            Ok(frames) => {
                let signal = self.link.on_result(true);
                (InverterOutcome::Reply(frames), Some(signal))
            },
            Err(e) => {
                if e.is_fatal() {
                    let _ = self.link.on_result(false);
                    (InverterOutcome::Skip, Some(false))
                } else {
                    (InverterOutcome::Skip, None)
                }
            },
        }
    }
}

/// How a poll frame classifies for the contactor signal, before the
/// debounce: answered, fatally rejected, or benignly skipped.
pub enum PollClass {
    Good,
    Fatal,
    Benign,
}

/// Classify a poll against the translator's error split: standard ids
/// are fatal, unknown extended ids and timestamp frames are benign,
/// and an answerable poll is good.
pub open spec fn spec_poll_class(frame: CanFrame) -> PollClass {
    match frame.id {
        crate::frame::FrameId::Standard(_) => PollClass::Fatal,
        crate::frame::FrameId::Extended(id) => {
            if id != crate::solax::ID_SOLAX_REQUEST {
                PollClass::Benign
            } else if frame.data@[0] == 1 {
                PollClass::Good
            } else {
                PollClass::Benign
            }
        },
    }
}

/// The preamble transmit cadence: which key accompanies each tick.
/// Five ticks with one key, four with the other, then the counter
/// wraps.
pub fn next_preamble_key(counter: &mut u8) -> (key: Option<LbcKey>)
    ensures
        *final(counter) == if *old(counter) >= 9 {
            0u8
        } else {
            (*old(counter) + 1) as u8
        },
        key == if 1 <= *final(counter) <= 5 {
            Some(LbcKey::X5d)
        } else {
            Some(LbcKey::Xb2)
        },
{
    if *counter >= 9 {
        *counter = 0;
    } else {
        *counter = *counter + 1;
    }
    if 1 <= *counter && *counter <= 5 {
        Some(LbcKey::X5d)
    } else {
        Some(LbcKey::Xb2)
    }
}

/// Tracks the key byte the battery reports on id 0x445: four
/// consecutive reports of the alternate marker select the matching key.
pub struct LbcTracker {
    pub faa: u8,
    pub f55: u8,
}

impl LbcTracker {
    pub fn new() -> (r: LbcTracker)
        ensures
            r.faa == 0 && r.f55 == 0,
    {
        LbcTracker { faa: 0, f55: 0 }
    }

    /// Consume the key byte of one 0x445 frame; yields a key once four
    /// consecutive frames agreed.
    pub fn on_key_byte(&mut self, key_byte: u8) -> (key: Option<LbcKey>)
        requires
            old(self).faa < 4,
            old(self).f55 < 4,
        ensures
            final(self).faa < 4,
            final(self).f55 < 4,
            key_byte == 0xaa ==> {
                &&& final(self).f55 == 0
                &&& key == (if old(self).faa == 3 {
                    Some(LbcKey::X5d)
                } else {
                    None::<LbcKey>
                })
                &&& final(self).faa == (if old(self).faa == 3 {
                    0u8
                } else {
                    (old(self).faa + 1) as u8
                })
            },
            key_byte != 0xaa ==> {
                &&& final(self).faa == 0
                &&& key == (if old(self).f55 == 3 {
                    Some(LbcKey::Xb2)
                } else {
                    None::<LbcKey>
                })
                &&& final(self).f55 == (if old(self).f55 == 3 {
                    0u8
                } else {
                    (old(self).f55 + 1) as u8
                })
            },
    {
        if key_byte == 0xaa {
            self.f55 = 0;
            self.faa = self.faa + 1;
            if self.faa == 4 {
                self.faa = 0;
                Some(LbcKey::X5d)
            } else {
                None
            }
        } else {
            self.faa = 0;
            self.f55 = self.f55 + 1;
            if self.f55 == 4 {
                self.f55 = 0;
                Some(LbcKey::Xb2)
            } else {
                None
            }
        }
    }
}

} // verus!
