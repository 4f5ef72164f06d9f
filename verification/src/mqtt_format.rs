//! The status record published over the message bus, and its JSON
//! rendering.

use vstd::prelude::*;

use crate::bms::{count_true, Bms};
use crate::decimal::{bool_text, i32_dec, spec_idec, spec_udec, u32_dec};

verus! {

/// The published snapshot of the fused record, in the exporters'
/// units: state of charge in deci-percent, voltages in centivolts and
/// millivolts, temperatures in deci-degrees, currents in centiamps and
/// deciamps, energy in centi-kilowatt-hours.
#[derive(Clone, Copy, Debug)]
pub struct MqttFormat {
    pub soc: u16,
    pub volts: u32,
    pub cell_mv_high: u16,
    pub cell_mv_low: u16,
    pub cell_temp_high: i16,
    pub cell_temp_low: i16,
    pub amps: i32,
    pub kwh: u32,
    pub charge: u16,
    pub discharge: u16,
    pub bal: u16,
    pub valid: bool,
}

/// The published snapshot a fused record maps to.
pub open spec fn spec_mqtt_of(b: Bms) -> MqttFormat {
    MqttFormat {
        soc: b.soc,
        volts: b.pack_volts,
        cell_mv_high: b.cell_range_mv.max,
        cell_mv_low: b.cell_range_mv.min,
        cell_temp_high: b.temps.max,
        cell_temp_low: b.temps.min,
        amps: b.current,
        kwh: b.kwh_remaining,
        charge: b.charge_max,
        discharge: b.discharge_max,
        bal: count_true(b.bal_cells@) as u16,
        valid: b.valid,
    }
}

impl MqttFormat {
    /// Snapshot a fused record for publication.
    pub fn from(bmsdata: &Bms) -> (r: MqttFormat)
        ensures
            r == spec_mqtt_of(*bmsdata),
    {
        MqttFormat {
            soc: bmsdata.soc,
            volts: bmsdata.pack_volts,
            cell_mv_high: bmsdata.cell_range_mv.max,
            cell_mv_low: bmsdata.cell_range_mv.min,
            cell_temp_high: bmsdata.temps.max,
            cell_temp_low: bmsdata.temps.min,
            amps: bmsdata.current,
            kwh: bmsdata.kwh_remaining,
            charge: bmsdata.charge_max,
            discharge: bmsdata.discharge_max,
            bal: bmsdata.get_balancing_cells(),
            valid: bmsdata.valid,
        }
    }

    /// An all-zero, not-valid snapshot.
    pub fn default() -> (r: MqttFormat)
        ensures
            r.soc == 0,
            r.volts == 0,
            r.amps == 0,
            !r.valid,
    {
        MqttFormat {
            soc: 0,
            volts: 0,
            cell_mv_high: 0,
            cell_mv_low: 0,
            cell_temp_high: 0,
            cell_temp_low: 0,
            amps: 0,
            kwh: 0,
            charge: 0,
            discharge: 0,
            bal: 0,
            valid: false,
        }
    }

    /// The snapshot as one JSON object.
    pub open spec fn spec_json(self) -> Seq<char> {
        "{\"soc\":"@ + spec_udec(self.soc as int) + ",\"volts\":"@ + spec_udec(self.volts as int)
            + ",\"cell_mv_high\":"@ + spec_udec(self.cell_mv_high as int) + ",\"cell_mv_low\":"@
            + spec_udec(self.cell_mv_low as int) + ",\"cell_temp_high\":"@ + spec_idec(
            self.cell_temp_high as int,
        ) + ",\"cell_temp_low\":"@ + spec_idec(self.cell_temp_low as int) + ",\"amps\":"@
            + spec_idec(self.amps as int) + ",\"kwh\":"@ + spec_udec(self.kwh as int)
            + ",\"charge\":"@ + spec_udec(self.charge as int) + ",\"discharge\":"@ + spec_udec(
            self.discharge as int,
        ) + ",\"bal\":"@ + spec_udec(self.bal as int) + ",\"valid\":"@ + (if self.valid {
            "true"@
        } else {
            "false"@
        }) + "}"@
    }

    /// Render the snapshot as the device-update message.
    pub fn device_update_msg(&self) -> (r: String)
        ensures
            r@ == self.spec_json(),
    {
        proof {
            reveal_strlit("{\"soc\":");
            reveal_strlit(",\"volts\":");
            reveal_strlit(",\"cell_mv_high\":");
            reveal_strlit(",\"cell_mv_low\":");
            reveal_strlit(",\"cell_temp_high\":");
            reveal_strlit(",\"cell_temp_low\":");
            reveal_strlit(",\"amps\":");
            reveal_strlit(",\"kwh\":");
            reveal_strlit(",\"charge\":");
            reveal_strlit(",\"discharge\":");
            reveal_strlit(",\"bal\":");
            reveal_strlit(",\"valid\":");
            reveal_strlit("}");
        }
        let mut out = String::from_str("{\"soc\":");
        out.append(u32_dec(self.soc as u32).as_str());
        out.append(",\"volts\":");
        out.append(u32_dec(self.volts).as_str());
        out.append(",\"cell_mv_high\":");
        out.append(u32_dec(self.cell_mv_high as u32).as_str());
        out.append(",\"cell_mv_low\":");
        out.append(u32_dec(self.cell_mv_low as u32).as_str());
        out.append(",\"cell_temp_high\":");
        out.append(i32_dec(self.cell_temp_high as i32).as_str());
        out.append(",\"cell_temp_low\":");
        out.append(i32_dec(self.cell_temp_low as i32).as_str());
        out.append(",\"amps\":");
        out.append(i32_dec(self.amps).as_str());
        out.append(",\"kwh\":");
        out.append(u32_dec(self.kwh).as_str());
        out.append(",\"charge\":");
        out.append(u32_dec(self.charge as u32).as_str());
        out.append(",\"discharge\":");
        out.append(u32_dec(self.discharge as u32).as_str());
        out.append(",\"bal\":");
        out.append(u32_dec(self.bal as u32).as_str());
        out.append(",\"valid\":");
        out.append(bool_text(self.valid));
        out.append("}");
        proof {
            assert(out@ =~= self.spec_json());
        }
        out
    }
}

} // verus!
