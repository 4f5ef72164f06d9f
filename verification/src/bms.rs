//! The fused battery record (`Bms`), its operator configuration
//! (`BmsConfig`), and the safety-envelope calculator.
//!
//! Units: cell voltages in millivolts, pack voltage in centivolts,
//! measured current in centiamps (signed), current limits in deciamps,
//! temperatures in deci-degrees Celsius, state of charge in deci-percent,
//! energy in centi-kilowatt-hours.

use vstd::prelude::*;

use crate::minmax::MinMax;

verus! {

/// The number of cells tracked per pack.
pub const CELL_COUNT: usize = 96;

/// Width, in deci-percent of state of charge, of the band above the
/// depth-of-discharge floor over which the discharge limit is derated
/// linearly toward zero.
pub const DISCHARGE_SOC_BAND: u16 = 100;

/// Width, in deci-degrees Celsius, of the band above the configured
/// minimum pack temperature over which the discharge limit is derated
/// linearly toward zero.
pub const DISCHARGE_TEMP_BAND: i16 = 50;

/// Why a telemetry write into the fused record was rejected.
#[derive(Clone, Copy, Debug, PartialEq, Eq, Structural)]
pub enum BmsError {
    SocOutOfRange,
    CurrentOutOfRange,
    PackVoltsOutOfRange,
    CellVoltsOutOfRange,
    CellDeltaExceeded,
    TemperatureOutOfRange,
    ChargeLimitOutOfRange,
    DischargeLimitOutOfRange,
    InvalidConfig,
}

/// Operator-configured bounds for the pack.
#[derive(Clone, Copy, Debug)]
pub struct BmsConfig {
    /// Allowed charge-current limit range, deciamps.
    pub charge_current: MinMax<u16>,
    /// Allowed discharge-current limit range, deciamps.
    pub discharge_current: MinMax<u16>,
    /// Plausible range of the pack current sensor, centiamps.
    pub current_sensor: MinMax<i32>,
    /// Plausible pack voltage range, centivolts.
    pub pack_volts: MinMax<u32>,
    /// Plausible cell temperature range, deci-degrees Celsius.
    pub cell_temperatures: MinMax<i16>,
    /// Plausible pack temperature range, deci-degrees Celsius.
    pub pack_temperatures: MinMax<i16>,
    /// Absolute cell-voltage ceiling, millivolts; charge current is derated
    /// to zero at this value.
    pub cell_millivolt_peak: u16,
    /// Plausible individual cell voltage range, millivolts.
    pub cells_mv: MinMax<u16>,
    /// Largest tolerated spread between lowest and highest cell, millivolts.
    pub cell_millivolt_delta_max: u16,
    /// Plausible state-of-charge range, deci-percent.
    pub soc: MinMax<u16>,
    /// Depth-of-discharge window, deci-percent.
    pub dod: MinMax<u16>,
}

impl BmsConfig {
    /// A configuration the envelope calculator can work with: every range
    /// is ordered and the derating knees are consistent.
    pub open spec fn wf(self) -> bool {
        &&& self.charge_current.min <= self.charge_current.max
        &&& self.discharge_current.min <= self.discharge_current.max
        &&& self.current_sensor.min <= self.current_sensor.max
        &&& self.pack_volts.min <= self.pack_volts.max
        &&& self.cell_temperatures.min <= self.cell_temperatures.max
        &&& self.pack_temperatures.min <= self.pack_temperatures.max
        &&& self.cells_mv.min <= self.cells_mv.max
        &&& self.cells_mv.max < self.cell_millivolt_peak
        &&& self.soc.min <= self.soc.max
        &&& self.dod.min <= self.dod.max
        &&& self.dod.max <= 1000
        &&& self.pack_temperatures.min <= i16::MAX - DISCHARGE_TEMP_BAND
    }

    /// Executable form of [`BmsConfig::wf`].
    pub fn is_wf(&self) -> (r: bool)
        ensures
            r == self.wf(),
    {
        self.charge_current.min <= self.charge_current.max
            && self.discharge_current.min <= self.discharge_current.max
            && self.current_sensor.min <= self.current_sensor.max
            && self.pack_volts.min <= self.pack_volts.max
            && self.cell_temperatures.min <= self.cell_temperatures.max
            && self.pack_temperatures.min <= self.pack_temperatures.max
            && self.cells_mv.min <= self.cells_mv.max
            && self.cells_mv.max < self.cell_millivolt_peak
            && self.soc.min <= self.soc.max
            && self.dod.min <= self.dod.max
            && self.dod.max <= 1000
            && self.pack_temperatures.min <= i16::MAX - DISCHARGE_TEMP_BAND
    }

    pub fn charge_current_limts(&self) -> (r: &MinMax<u16>)
        ensures
            r == self.charge_current,
    {
        &self.charge_current
    }

    pub fn discharge_current_limts(&self) -> (r: &MinMax<u16>)
        ensures
            r == self.discharge_current,
    {
        &self.discharge_current
    }

    pub fn current_sensor_limts(&self) -> (r: &MinMax<i32>)
        ensures
            r == self.current_sensor,
    {
        &self.current_sensor
    }

    pub fn pack_volts(&self) -> (r: &MinMax<u32>)
        ensures
            r == self.pack_volts,
    {
        &self.pack_volts
    }

    pub fn pack_temperatures(&self) -> (r: &MinMax<i16>)
        ensures
            r == self.pack_temperatures,
    {
        &self.pack_temperatures
    }

    pub fn cell_millivolt_peak(&self) -> (r: u16)
        ensures
            r == self.cell_millivolt_peak,
    {
        self.cell_millivolt_peak
    }

    pub fn cells_mv(&self) -> (r: &MinMax<u16>)
        ensures
            r == self.cells_mv,
    {
        &self.cells_mv
    }

    pub fn cell_millivolt_delta_max(&self) -> (r: u16)
        ensures
            r == self.cell_millivolt_delta_max,
    {
        self.cell_millivolt_delta_max
    }

    pub fn soc(&self) -> (r: &MinMax<u16>)
        ensures
            r == self.soc,
    {
        &self.soc
    }

    /// Replace the allowed discharge-current limit range.
    /// Rejected when the bounds are reversed.
    pub fn set_discharge_limts(&mut self, min: u16, max: u16) -> (r: Result<(), BmsError>)
        ensures
            r is Ok <==> min <= max,
            r is Ok ==> *final(self) == (BmsConfig {
                discharge_current: MinMax { min, max },
                ..*old(self)
            }),
            r is Err ==> *final(self) == *old(self),
    {
        if min <= max {
            self.discharge_current = MinMax { min, max };
            Ok(())
        } else {
            Err(BmsError::InvalidConfig)
        }
    }
}

impl Default for BmsConfig {
    /// The boot-time defaults: 0-250 A charge and discharge, a ±200 A
    /// sensor, 300-400 V pack, -20..50 C, 3000-4150 mV cells with a
    /// 4200 mV peak and 500 mV spread, 0-100% state of charge and a
    /// 5-90% depth-of-discharge window.
    fn default() -> (r: BmsConfig)
        ensures
            r.wf(),
            r.charge_current == (MinMax::<u16> { min: 0, max: 2500 }),
            r.discharge_current == (MinMax::<u16> { min: 0, max: 2500 }),
            r.pack_volts == (MinMax::<u32> { min: 30000, max: 40000 }),
            r.cells_mv == (MinMax::<u16> { min: 3000, max: 4150 }),
            r.cell_millivolt_peak == 4200,
            r.cell_millivolt_delta_max == 500,
            r.soc == (MinMax::<u16> { min: 0, max: 1000 }),
            r.dod == (MinMax::<u16> { min: 50, max: 900 }),
            r.current_sensor == (MinMax::<i32> { min: -20000i32, max: 20000i32 }),
            r.pack_temperatures == (MinMax::<i16> { min: -200i16, max: 500i16 }),
            r.cell_temperatures == (MinMax::<i16> { min: -200i16, max: 500i16 }),
    {
        BmsConfig {
            charge_current: MinMax { min: 0, max: 2500 },
            discharge_current: MinMax { min: 0, max: 2500 },
            current_sensor: MinMax { min: -20000, max: 20000 },
            pack_volts: MinMax { min: 30000, max: 40000 },
            cell_temperatures: MinMax { min: -200, max: 500 },
            pack_temperatures: MinMax { min: -200, max: 500 },
            cell_millivolt_peak: 4200,
            cells_mv: MinMax { min: 3000, max: 4150 },
            cell_millivolt_delta_max: 500,
            soc: MinMax { min: 0, max: 1000 },
            dod: MinMax { min: 50, max: 900 },
        }
    }
}

/// The derived current limits produced by the envelope calculator.
#[derive(Clone, Copy, Debug, PartialEq, Eq, Structural)]
pub struct DerivedLimits {
    /// Charge-current limit, deciamps.
    pub charge_max: u16,
    /// Discharge-current limit, deciamps.
    pub discharge_max: u16,
}

/// The fused battery record: the single validated snapshot of pack
/// telemetry that every downstream consumer reads.
#[derive(Clone, Copy, Debug)]
pub struct Bms {
    pub config: BmsConfig,
    /// Individual cell voltages, millivolts.
    pub cell_mv: [u16; 96],
    /// Lowest/highest cell voltage, millivolts.
    pub cell_range_mv: MinMax<u16>,
    /// Spread between highest and lowest cell, millivolts.
    pub cell_delta_mv: u16,
    /// Which cells are actively balancing.
    pub bal_cells: [bool; 96],
    /// Lowest/highest pack temperature, deci-degrees Celsius.
    pub temps: MinMax<i16>,
    /// Representative pack temperature, deci-degrees Celsius.
    pub temp: i16,
    /// Pack voltage, centivolts.
    pub pack_volts: u32,
    /// Pack current, centiamps; negative is discharge.
    pub current: i32,
    /// Remaining energy, centi-kilowatt-hours.
    pub kwh_remaining: u32,
    /// State of charge, deci-percent.
    pub soc: u16,
    /// State of health, percent.
    pub soh: u8,
    /// Charge-current limit, deciamps.
    pub charge_max: u16,
    /// Discharge-current limit, deciamps.
    pub discharge_max: u16,
    /// True only while the record holds a complete, consistent reading.
    pub valid: bool,
}

impl Bms {
    /// A fresh, not-yet-valid record under the given configuration.
    pub fn new(config: BmsConfig) -> (r: Bms)
        ensures
            r.config == config,
            !r.valid,
            r.soc == 0,
            r.charge_max == 0,
            r.discharge_max == 0,
            r.pack_volts == 0,
            r.current == 0,
            r.kwh_remaining == 0,
            r.cell_range_mv == (MinMax::<u16> { min: 0, max: 0 }),
            r.cell_mv@ =~= Seq::<u16>::new(96, |i: int| 0u16),
            r.bal_cells@ =~= Seq::<bool>::new(96, |i: int| false),
    {
        let r = Bms {
            config,
            cell_mv: [0; 96],
            cell_range_mv: MinMax { min: 0, max: 0 },
            cell_delta_mv: 0,
            bal_cells: [false; 96],
            temps: MinMax { min: 0, max: 0 },
            temp: 0,
            pack_volts: 0,
            current: 0,
            kwh_remaining: 0,
            soc: 0,
            soh: 0,
            charge_max: 0,
            discharge_max: 0,
            valid: false,
        };
        proof {
            assert(r.cell_mv@ =~= Seq::<u16>::new(96, |i: int| 0u16));
            assert(r.bal_cells@ =~= Seq::<bool>::new(96, |i: int| false));
        }
        r
    }

    /// Mark the record valid or invalid. Always succeeds; the `Result`
    /// mirrors the other setters so update sequences read uniformly.
    pub fn set_valid(&mut self, valid: bool) -> (r: Result<(), BmsError>)
        ensures
            r is Ok,
            *final(self) == (Bms { valid, ..*old(self) }),
    {
        self.valid = valid;
        Ok(())
    }

    /// Record the pack current, centiamps. Rejected if and only if the
    /// value lies outside the configured current-sensor range.
    pub fn set_current(&mut self, centiamps: i32) -> (r: Result<(), BmsError>)
        ensures
            r is Ok <==> old(self).config.current_sensor.min <= centiamps
                <= old(self).config.current_sensor.max,
            r is Ok ==> *final(self) == (Bms { current: centiamps, ..*old(self) }),
            r is Err ==> *final(self) == *old(self) && r == Err::<(), BmsError>(
                BmsError::CurrentOutOfRange,
            ),
    {
        if self.config.current_sensor.min <= centiamps && centiamps
            <= self.config.current_sensor.max {
            self.current = centiamps;
            Ok(())
        } else {
            Err(BmsError::CurrentOutOfRange)
        }
    }

    /// Record the state of charge, deci-percent. Rejected if and only if
    /// the value lies outside the configured range.
    pub fn set_soc(&mut self, deci_percent: u16) -> (r: Result<(), BmsError>)
        ensures
            r is Ok <==> old(self).config.soc.min <= deci_percent <= old(self).config.soc.max,
            r is Ok ==> *final(self) == (Bms { soc: deci_percent, ..*old(self) }),
            r is Err ==> *final(self) == *old(self) && r == Err::<(), BmsError>(
                BmsError::SocOutOfRange,
            ),
    {
        if self.config.soc.min <= deci_percent && deci_percent <= self.config.soc.max {
            self.soc = deci_percent;
            Ok(())
        } else {
            Err(BmsError::SocOutOfRange)
        }
    }

    /// Record the remaining energy, centi-kilowatt-hours. Never rejected.
    pub fn set_kwh(&mut self, centi_kwh: u32) -> (r: Result<(), BmsError>)
        ensures
            r is Ok,
            *final(self) == (Bms { kwh_remaining: centi_kwh, ..*old(self) }),
    {
        self.kwh_remaining = centi_kwh;
        Ok(())
    }

    /// Record the representative pack temperature, deci-degrees Celsius.
    /// Rejected if and only if outside the configured pack range.
    pub fn set_pack_temp(&mut self, deci_c: i16) -> (r: Result<(), BmsError>)
        ensures
            r is Ok <==> old(self).config.pack_temperatures.min <= deci_c
                <= old(self).config.pack_temperatures.max,
            r is Ok ==> *final(self) == (Bms { temp: deci_c, ..*old(self) }),
            r is Err ==> *final(self) == *old(self) && r == Err::<(), BmsError>(
                BmsError::TemperatureOutOfRange,
            ),
    {
        if self.config.pack_temperatures.min <= deci_c && deci_c
            <= self.config.pack_temperatures.max {
            self.temp = deci_c;
            Ok(())
        } else {
            Err(BmsError::TemperatureOutOfRange)
        }
    }

    /// Record the lowest and highest pack temperature, deci-degrees
    /// Celsius. Rejected if and only if the pair is reversed or outside
    /// the configured pack range.
    pub fn set_temps(&mut self, min: i16, max: i16) -> (r: Result<(), BmsError>)
        ensures
            r is Ok <==> min <= max && old(self).config.pack_temperatures.min <= min
                && max <= old(self).config.pack_temperatures.max,
            r is Ok ==> *final(self) == (Bms { temps: MinMax { min, max }, ..*old(self) }),
            r is Err ==> *final(self) == *old(self) && r == Err::<(), BmsError>(
                BmsError::TemperatureOutOfRange,
            ),
    {
        if min <= max && self.config.pack_temperatures.min <= min && max
            <= self.config.pack_temperatures.max {
            self.temps = MinMax { min, max };
            Ok(())
        } else {
            Err(BmsError::TemperatureOutOfRange)
        }
    }

    /// Record the pack voltage, centivolts. Rejected if and only if
    /// outside the configured pack-voltage range.
    pub fn set_pack_volts(&mut self, centivolts: u32) -> (r: Result<(), BmsError>)
        ensures
            r is Ok <==> old(self).config.pack_volts.min <= centivolts <= old(self).config.pack_volts.max,
            r is Ok ==> *final(self) == (Bms { pack_volts: centivolts, ..*old(self) }),
            r is Err ==> *final(self) == *old(self) && r == Err::<(), BmsError>(
                BmsError::PackVoltsOutOfRange,
            ),
    {
        if self.config.pack_volts.min <= centivolts && centivolts <= self.config.pack_volts.max {
            self.pack_volts = centivolts;
            Ok(())
        } else {
            Err(BmsError::PackVoltsOutOfRange)
        }
    }

    /// Record the lowest and highest cell voltage, millivolts. Rejected
    /// if and only if the pair is reversed, a bound lies outside the
    /// configured cell range, or the spread exceeds the configured delta.
    pub fn set_cell_mv_low_high(&mut self, low: u16, high: u16) -> (r: Result<(), BmsError>)
        ensures
            r is Ok <==> low <= high && old(self).config.cells_mv.min <= low && high
                <= old(self).config.cells_mv.max && high - low
                <= old(self).config.cell_millivolt_delta_max,
            r is Ok ==> *final(self) == (Bms {
                cell_range_mv: MinMax { min: low, max: high },
                cell_delta_mv: (high - low) as u16,
                ..*old(self)
            }),
            r is Err ==> *final(self) == *old(self),
    {
        if !(low <= high) {
            return Err(BmsError::CellVoltsOutOfRange);
        }
        if !(self.config.cells_mv.min <= low && high <= self.config.cells_mv.max) {
            return Err(BmsError::CellVoltsOutOfRange);
        }
        if high - low > self.config.cell_millivolt_delta_max {
            return Err(BmsError::CellDeltaExceeded);
        }
        self.cell_range_mv = MinMax { min: low, max: high };
        self.cell_delta_mv = high - low;
        Ok(())
    }

    /// Record the charge-current limit requested by the battery, deciamps.
    /// Rejected if and only if outside the configured charge range.
    pub fn set_max_charge_amps(&mut self, deciamps: u16) -> (r: Result<(), BmsError>)
        ensures
            r is Ok <==> old(self).config.charge_current.min <= deciamps
                <= old(self).config.charge_current.max,
            r is Ok ==> *final(self) == (Bms { charge_max: deciamps, ..*old(self) }),
            r is Err ==> *final(self) == *old(self) && r == Err::<(), BmsError>(
                BmsError::ChargeLimitOutOfRange,
            ),
    {
        if self.config.charge_current.min <= deciamps && deciamps
            <= self.config.charge_current.max {
            self.charge_max = deciamps;
            Ok(())
        } else {
            Err(BmsError::ChargeLimitOutOfRange)
        }
    }

    /// Record the discharge-current limit, deciamps. Rejected if and only
    /// if outside the configured discharge range.
    pub fn set_max_discharge_amps(&mut self, deciamps: u16) -> (r: Result<(), BmsError>)
        ensures
            r is Ok <==> old(self).config.discharge_current.min <= deciamps
                <= old(self).config.discharge_current.max,
            r is Ok ==> *final(self) == (Bms { discharge_max: deciamps, ..*old(self) }),
            r is Err ==> *final(self) == *old(self) && r == Err::<(), BmsError>(
                BmsError::DischargeLimitOutOfRange,
            ),
    {
        if self.config.discharge_current.min <= deciamps && deciamps
            <= self.config.discharge_current.max {
            self.discharge_max = deciamps;
            Ok(())
        } else {
            Err(BmsError::DischargeLimitOutOfRange)
        }
    }

    /// The number of cells currently balancing.
    pub fn get_balancing_cells(&self) -> (r: u16)
        ensures
            r == count_true(self.bal_cells@),
    {
        let mut count: u16 = 0;
        let mut i: usize = 0;
        while i < 96
            invariant
                i <= 96,
                count == count_true(self.bal_cells@.take(i as int)),
                count <= i,
                self.bal_cells@.len() == 96,
            decreases 96 - i,
        {
            proof {
                assert(self.bal_cells@.take(i + 1) =~= self.bal_cells@.take(i as int).push(
                    self.bal_cells@[i as int],
                ));
                lemma_count_true_push(self.bal_cells@.take(i as int), self.bal_cells@[i as int]);
            }
            if self.bal_cells[i] {
                count = count + 1;
            }
            i = i + 1;
        }
        proof {
            assert(self.bal_cells@.take(96) =~= self.bal_cells@);
        }
        count
    }

    /// Record the full cell-voltage array, millivolts, and derive the
    /// low/high range and spread from it. Rejected if and only if some
    /// cell lies outside the configured range or the spread exceeds the
    /// configured delta; on rejection the record is unchanged.
    pub fn set_cell_mv(&mut self, cells: [u16; 96]) -> (r: Result<(), BmsError>)
        ensures
            r is Ok ==> {
                &&& *final(self) == (Bms {
                    cell_mv: cells,
                    cell_range_mv: MinMax {
                        min: seq_min_u16(cells@),
                        max: seq_max_u16(cells@),
                    },
                    cell_delta_mv: (seq_max_u16(cells@) - seq_min_u16(cells@)) as u16,
                    ..*old(self)
                })
                &&& old(self).config.cells_mv.min <= seq_min_u16(cells@)
                &&& seq_max_u16(cells@) <= old(self).config.cells_mv.max
            },
            r is Err ==> *final(self) == *old(self),
            (r is Ok) == (old(self).config.cells_mv.min <= seq_min_u16(cells@)
                && seq_max_u16(cells@) <= old(self).config.cells_mv.max
                && seq_max_u16(cells@) - seq_min_u16(cells@)
                <= old(self).config.cell_millivolt_delta_max),
    {
        let (low, high) = min_max_of_cells(&cells);
        if !(self.config.cells_mv.min <= low && high <= self.config.cells_mv.max) {
            return Err(BmsError::CellVoltsOutOfRange);
        }
        if high - low > self.config.cell_millivolt_delta_max {
            return Err(BmsError::CellDeltaExceeded);
        }
        self.cell_mv = cells;
        self.cell_range_mv = MinMax { min: low, max: high };
        self.cell_delta_mv = high - low;
        Ok(())
    }

    /// Run the safety-envelope calculator over this record and store the
    /// derived limits back into it. Rejected if and only if the embedded
    /// configuration is not well formed; on rejection the record is
    /// unchanged.
    pub fn throttle_pack(&mut self) -> (r: Result<(), BmsError>)
        ensures
            r is Ok <==> old(self).config.wf(),
            r is Ok ==> *final(self) == (Bms {
                charge_max: spec_charge_limit(*old(self), old(self).config) as u16,
                discharge_max: spec_discharge_limit(*old(self), old(self).config) as u16,
                ..*old(self)
            }),
            r is Ok ==> old(self).config.charge_current.min <= final(self).charge_max
                <= old(self).config.charge_current.max,
            r is Ok ==> old(self).config.discharge_current.min <= final(self).discharge_max
                <= old(self).config.discharge_current.max,
            r is Err ==> *final(self) == *old(self) && r == Err::<(), BmsError>(
                BmsError::InvalidConfig,
            ),
    {
        if !self.config.is_wf() {
            return Err(BmsError::InvalidConfig);
        }
        let config = self.config;
        let limits = compute_limits(self, &config);
        self.charge_max = limits.charge_max;
        self.discharge_max = limits.discharge_max;
        Ok(())
    }
}

/// How many entries of a boolean sequence are true.
pub open spec fn count_true(s: Seq<bool>) -> nat
    decreases s.len(),
{
    if s.len() == 0 {
        0
    } else {
        count_true(s.drop_last()) + (if s.last() {
            1nat
        } else {
            0nat
        })
    }
}

pub(crate) proof fn lemma_count_true_push(s: Seq<bool>, b: bool)
    ensures
        count_true(s.push(b)) == count_true(s) + (if b {
            1nat
        } else {
            0nat
        }),
{
    assert(s.push(b).drop_last() =~= s);
    assert(s.push(b).last() == b);
}

/// The smallest entry of a non-empty u16 sequence.
pub open spec fn seq_min_u16(s: Seq<u16>) -> u16
    decreases s.len(),
{
    if s.len() <= 1 {
        s[0]
    } else if s.last() < seq_min_u16(s.drop_last()) {
        s.last()
    } else {
        seq_min_u16(s.drop_last())
    }
}

/// The largest entry of a non-empty u16 sequence.
pub open spec fn seq_max_u16(s: Seq<u16>) -> u16
    decreases s.len(),
{
    if s.len() <= 1 {
        s[0]
    } else if s.last() > seq_max_u16(s.drop_last()) {
        s.last()
    } else {
        seq_max_u16(s.drop_last())
    }
}

/// Scan the cell array for its smallest and largest entry.
fn min_max_of_cells(cells: &[u16; 96]) -> (r: (u16, u16))
    ensures
        r.0 == seq_min_u16(cells@),
        r.1 == seq_max_u16(cells@),
        r.0 <= r.1,
{
    let mut low: u16 = cells[0];
    let mut high: u16 = cells[0];
    let mut i: usize = 1;
    proof {
        assert(cells@.take(1).len() == 1);
        assert(cells@.take(1)[0] == cells@[0]);
    }
    while i < 96
        invariant
            1 <= i <= 96,
            cells@.len() == 96,
            low == seq_min_u16(cells@.take(i as int)),
            high == seq_max_u16(cells@.take(i as int)),
            low <= high,
        decreases 96 - i,
    {
        proof {
            let t = cells@.take(i + 1);
            assert(t.drop_last() =~= cells@.take(i as int));
            assert(t.last() == cells@[i as int]);
        }
        if cells[i] < low {
            low = cells[i];
        }
        if cells[i] > high {
            high = cells[i];
        }
        i = i + 1;
    }
    proof {
        assert(cells@.take(96) =~= cells@);
    }
    (low, high)
}

/// Clamp `x` into the inclusive range `[lo, hi]`.
pub open spec fn spec_clamp(x: int, lo: int, hi: int) -> int {
    if x < lo {
        lo
    } else if x > hi {
        hi
    } else {
        x
    }
}

/// The charge-current limit after derating and clamping, deciamps.
///
/// The configured limit is pulled linearly toward zero as the highest
/// cell climbs from the configured cell maximum to the absolute peak,
/// then clamped into the configured charge range.
pub open spec fn spec_charge_limit(state: Bms, config: BmsConfig) -> int {
    let base = state.charge_max as int;
    let cell_max = state.cell_range_mv.max as int;
    let knee = config.cells_mv.max as int;
    let peak = config.cell_millivolt_peak as int;
    let derated = if cell_max >= peak {
        0
    } else if cell_max > knee {
        base * (peak - cell_max) / (peak - knee)
    } else {
        base
    };
    spec_clamp(derated, config.charge_current.min as int, config.charge_current.max as int)
}

/// The discharge-current limit after derating and clamping, deciamps.
///
/// The configured limit is pulled linearly toward zero as the state of
/// charge falls through a band above the depth-of-discharge floor, and
/// as the lowest pack temperature falls through a band above the
/// configured minimum; then clamped into the configured discharge range.
pub open spec fn spec_discharge_limit(state: Bms, config: BmsConfig) -> int {
    let base = state.discharge_max as int;
    let soc = state.soc as int;
    let floor = 1000 - config.dod.max as int;
    let band = DISCHARGE_SOC_BAND as int;
    let by_soc = if soc <= floor {
        0
    } else if soc < floor + band {
        base * (soc - floor) / band
    } else {
        base
    };
    let tmin = state.temps.min as int;
    let tfloor = config.pack_temperatures.min as int;
    let tband = DISCHARGE_TEMP_BAND as int;
    let by_temp = if tmin <= tfloor {
        0
    } else if tmin < tfloor + tband {
        by_soc * (tmin - tfloor) / tband
    } else {
        by_soc
    };
    spec_clamp(by_temp, config.discharge_current.min as int, config.discharge_current.max as int)
}

/// Clamp a computed limit into a configured range, deciamps.
fn clamp_u16(x: u32, lo: u16, hi: u16) -> (r: u16)
    requires
        lo <= hi,
    ensures
        r as int == spec_clamp(x as int, lo as int, hi as int),
{
    if x < lo as u32 {
        lo
    } else if x > hi as u32 {
        hi
    } else {
        x as u16
    }
}

proof fn lemma_scale_le(base: int, num: int, den: int)
    requires
        base >= 0,
        0 <= num <= den,
        den > 0,
    ensures
        0 <= base * num / den <= base,
{
    assert(base * num <= base * den) by (nonlinear_arith)
        requires
            base >= 0,
            num <= den,
    ;
    assert(base * num >= 0) by (nonlinear_arith)
        requires
            base >= 0,
            num >= 0,
    ;
    vstd::arithmetic::div_mod::lemma_div_is_ordered(base * num, base * den, den);
    vstd::arithmetic::div_mod::lemma_div_by_multiple(base, den);
    vstd::arithmetic::div_mod::lemma_div_is_ordered(0, base * num, den);
    assert(0int / den == 0);
}

/// `base * num / den` for values that fit comfortably in 16 bits; the
/// result never exceeds `base`.
fn scale_down(base: u32, num: u32, den: u32) -> (r: u32)
    requires
        base <= 0xFFFF,
        num <= den,
        0 < den <= 0xFFFF,
    ensures
        r as int == base as int * num as int / den as int,
        r <= base,
{
    proof {
        assert(base as int * num as int <= 0xFFFF * 0xFFFF) by (nonlinear_arith)
            requires
                base <= 0xFFFF,
                num <= 0xFFFF,
        ;
        lemma_scale_le(base as int, num as int, den as int);
    }
    base * num / den
}

/// The safety-envelope calculator: a pure function from a battery record
/// and a configuration to derived charge and discharge current limits.
///
/// The result always lies within the configured ranges; derating only
/// ever pulls a limit down before the final clamp.
pub fn compute_limits(state: &Bms, config: &BmsConfig) -> (r: DerivedLimits)
    requires
        config.wf(),
    ensures
        r.charge_max as int == spec_charge_limit(*state, *config),
        r.discharge_max as int == spec_discharge_limit(*state, *config),
        config.charge_current.min <= r.charge_max <= config.charge_current.max,
        config.discharge_current.min <= r.discharge_max <= config.discharge_current.max,
{
    let base_c: u32 = state.charge_max as u32;
    let cell_max: u32 = state.cell_range_mv.max as u32;
    let knee: u32 = config.cells_mv.max as u32;
    let peak: u32 = config.cell_millivolt_peak as u32;
    let derated_c: u32 = if cell_max >= peak {
        0
    } else if cell_max > knee {
        scale_down(base_c, peak - cell_max, peak - knee)
    } else {
        base_c
    };
    let charge_max = clamp_u16(derated_c, config.charge_current.min, config.charge_current.max);

    let base_d: u32 = state.discharge_max as u32;
    let soc: u32 = state.soc as u32;
    let floor: u32 = 1000 - config.dod.max as u32;
    let band: u32 = DISCHARGE_SOC_BAND as u32;
    let by_soc: u32 = if soc <= floor {
        0
    } else if soc < floor + band {
        scale_down(base_d, soc - floor, band)
    } else {
        base_d
    };
    let tmin: i32 = state.temps.min as i32;
    let tfloor: i32 = config.pack_temperatures.min as i32;
    let tband: i32 = DISCHARGE_TEMP_BAND as i32;
    let by_temp: u32 = if tmin <= tfloor {
        0
    } else if tmin < tfloor + tband {
        scale_down(by_soc, (tmin - tfloor) as u32, tband as u32)
    } else {
        by_soc
    };
    let discharge_max = clamp_u16(
        by_temp,
        config.discharge_current.min,
        config.discharge_current.max,
    );

    DerivedLimits { charge_max, discharge_max }
}

/// Envelope clamping: for every record and every well-formed
/// configuration, the derived limits lie within the configured ranges,
/// and a limit of zero is never exceeded downward.
pub proof fn lemma_envelope_clamping(state: Bms, config: BmsConfig)
    requires
        config.wf(),
    ensures
        config.charge_current.min <= spec_charge_limit(state, config)
            <= config.charge_current.max,
        config.discharge_current.min <= spec_discharge_limit(state, config)
            <= config.discharge_current.max,
{
    let base = state.charge_max as int;
    let cell_max = state.cell_range_mv.max as int;
    let knee = config.cells_mv.max as int;
    let peak = config.cell_millivolt_peak as int;
    if cell_max < peak && cell_max > knee {
        lemma_scale_le(base, peak - cell_max, peak - knee);
    }
    let based = state.discharge_max as int;
    let soc = state.soc as int;
    let floor = 1000 - config.dod.max as int;
    let band = DISCHARGE_SOC_BAND as int;
    let by_soc = if soc <= floor {
        0
    } else if soc < floor + band {
        based * (soc - floor) / band
    } else {
        based
    };
    if soc > floor && soc < floor + band {
        lemma_scale_le(based, soc - floor, band);
    }
    let tmin = state.temps.min as int;
    let tfloor = config.pack_temperatures.min as int;
    let tband = DISCHARGE_TEMP_BAND as int;
    if by_soc >= 0 && tmin > tfloor && tmin < tfloor + tband {
        lemma_scale_le(by_soc, tmin - tfloor, tband);
    }
}

} // verus!
