//! The discovery announcement: one topic/payload pair per published
//! sensor, computed as pure values; a transport outside the library
//! sends them.

use vstd::prelude::*;

use crate::decimal::{spec_udec, u32_dec};
use crate::ha::{spec_sensor_json, Device, Sensor, SensorBuilder};

verus! {

/// How many sensors the gateway announces.
pub const DISCOVERY_SENSOR_COUNT: usize = 11;

/// The announcement topic of sensor `i`.
pub open spec fn spec_discovery_topic(i: int) -> Seq<char> {
    "homeassistant/sensor/Toucan_"@ + spec_udec(i) + "/config"@
}

/// The five text fields of announced sensor `i`: display name, unit,
/// value template, device class, and unique id.
pub open spec fn spec_discovery_fields(i: int) -> (
    Seq<char>,
    Seq<char>,
    Seq<char>,
    Seq<char>,
    Seq<char>,
) {
    if i == 0 {
        ("SoC"@, "%"@, "{{ value_json.soc }}"@, "battery"@, "SoC"@)
    } else if i == 1 {
        ("Pack Volts"@, "V"@, "{{ value_json.volts }}"@, "voltage"@, "Pack_Volts"@)
    } else if i == 2 {
        (
            "Cell Volts High"@,
            "mV"@,
            "{{ value_json.cell_mv_high }}"@,
            "voltage"@,
            "Cell_Volts_High"@,
        )
    } else if i == 3 {
        (
            "Cell Volts Low"@,
            "mV"@,
            "{{ value_json.cell_mv_low }}"@,
            "voltage"@,
            "Cell_Volts_Low"@,
        )
    } else if i == 4 {
        (
            "Cell Temperature High"@,
            "\u{b0}C"@,
            "{{ value_json.cell_temp_high }}"@,
            "temperature"@,
            "Cell_Temperature_High"@,
        )
    } else if i == 5 {
        (
            "Cell Temperature Low"@,
            "\u{b0}C"@,
            "{{ value_json.cell_temp_low }}"@,
            "temperature"@,
            "Cell_Temperature_Low"@,
        )
    } else if i == 6 {
        ("Current"@, "A"@, "{{ value_json.amps }}"@, "current"@, "Current"@)
    } else if i == 7 {
        ("Balancing"@, ""@, "{{ value_json.bal }}"@, ""@, "Balancing"@)
    } else if i == 8 {
        ("Charge Limit"@, "A"@, "{{ value_json.charge }}"@, "current"@, "Charge_Limit"@)
    } else if i == 9 {
        ("Discharge Limit"@, "A"@, "{{ value_json.discharge }}"@, "current"@, "Discharge_Limit"@)
    } else {
        ("Valid"@, ""@, "{{ value_json.valid }}"@, ""@, "Valid"@)
    }
}

/// The announcement payload of sensor `i`.
pub open spec fn spec_discovery_payload(i: int, basetopic: Seq<char>, device_json: Seq<char>)
    -> Seq<char> {
    let fields = spec_discovery_fields(i);
    spec_sensor_json(
        fields.3,
        basetopic,
        fields.1,
        fields.2,
        "measurement"@,
        fields.4,
        fields.0,
        device_json,
    )
}

/// Announced sensor `i`, over the given state topic and device.
pub fn get_sensor<'a>(i: usize, basetopic: &'a str, device: Device<'a>) -> (r: Sensor<'a>)
    requires
        i < DISCOVERY_SENSOR_COUNT,
    ensures
        ({
            let fields = spec_discovery_fields(i as int);
            &&& r.name@ == fields.0
            &&& r.unit_of_measurement@ == fields.1
            &&& r.value_template@ == fields.2
            &&& r.device_class@ == fields.3
            &&& r.unique_id@ == fields.4
            &&& r.state_topic == basetopic
            &&& r.state_class@ == "measurement"@
            &&& r.device == device
        }),
{
    proof {
        reveal_strlit("measurement");
        reveal_strlit("SoC");
        reveal_strlit("%");
        reveal_strlit("{{ value_json.soc }}");
        reveal_strlit("battery");
        reveal_strlit("Pack Volts");
        reveal_strlit("V");
        reveal_strlit("{{ value_json.volts }}");
        reveal_strlit("voltage");
        reveal_strlit("Pack_Volts");
        reveal_strlit("Cell Volts High");
        reveal_strlit("mV");
        reveal_strlit("{{ value_json.cell_mv_high }}");
        reveal_strlit("Cell_Volts_High");
        reveal_strlit("Cell Volts Low");
        reveal_strlit("{{ value_json.cell_mv_low }}");
        reveal_strlit("Cell_Volts_Low");
        reveal_strlit("Cell Temperature High");
        reveal_strlit("\u{b0}C");
        reveal_strlit("{{ value_json.cell_temp_high }}");
        reveal_strlit("temperature");
        reveal_strlit("Cell_Temperature_High");
        reveal_strlit("Cell Temperature Low");
        reveal_strlit("{{ value_json.cell_temp_low }}");
        reveal_strlit("Cell_Temperature_Low");
        reveal_strlit("Current");
        reveal_strlit("A");
        reveal_strlit("{{ value_json.amps }}");
        reveal_strlit("current");
        reveal_strlit("Balancing");
        reveal_strlit("");
        reveal_strlit("{{ value_json.bal }}");
        reveal_strlit("Charge Limit");
        reveal_strlit("{{ value_json.charge }}");
        reveal_strlit("Charge_Limit");
        reveal_strlit("Discharge Limit");
        reveal_strlit("{{ value_json.discharge }}");
        reveal_strlit("Discharge_Limit");
        reveal_strlit("Valid");
        reveal_strlit("{{ value_json.valid }}");
    }
    let builder = SensorBuilder::default().state_topic(basetopic).state_class(
        "measurement",
    ).device(device);
    let builder = if i == 0 {
        builder.name("SoC").unit_of_measurement("%").value_template(
            "{{ value_json.soc }}",
        ).device_class("battery").unique_id("SoC")
    } else if i == 1 {
        builder.name("Pack Volts").unit_of_measurement("V").value_template(
            "{{ value_json.volts }}",
        ).device_class("voltage").unique_id("Pack_Volts")
    } else if i == 2 {
        builder.name("Cell Volts High").unit_of_measurement("mV").value_template(
            "{{ value_json.cell_mv_high }}",
        ).device_class("voltage").unique_id("Cell_Volts_High")
    } else if i == 3 {
        builder.name("Cell Volts Low").unit_of_measurement("mV").value_template(
            "{{ value_json.cell_mv_low }}",
        ).device_class("voltage").unique_id("Cell_Volts_Low")
    } else if i == 4 {
        builder.name("Cell Temperature High").unit_of_measurement("\u{b0}C").value_template(
            "{{ value_json.cell_temp_high }}",
        ).device_class("temperature").unique_id("Cell_Temperature_High")
    } else if i == 5 {
        builder.name("Cell Temperature Low").unit_of_measurement("\u{b0}C").value_template(
            "{{ value_json.cell_temp_low }}",
        ).device_class("temperature").unique_id("Cell_Temperature_Low")
    } else if i == 6 {
        builder.name("Current").unit_of_measurement("A").value_template(
            "{{ value_json.amps }}",
        ).device_class("current").unique_id("Current")
    } else if i == 7 {
        builder.name("Balancing").unit_of_measurement("").value_template(
            "{{ value_json.bal }}",
        ).device_class("").unique_id("Balancing")
    } else if i == 8 {
        builder.name("Charge Limit").unit_of_measurement("A").value_template(
            "{{ value_json.charge }}",
        ).device_class("current").unique_id("Charge_Limit")
    } else if i == 9 {
        builder.name("Discharge Limit").unit_of_measurement("A").value_template(
            "{{ value_json.discharge }}",
        ).device_class("current").unique_id("Discharge_Limit")
    } else {
        builder.name("Valid").unit_of_measurement("").value_template(
            "{{ value_json.valid }}",
        ).device_class("").unique_id("Valid")
    };
    builder.build()
}

/// Every topic/payload pair of the discovery announcement, in send
/// order.
pub fn discovery_messages<'a>(basetopic: &'a str, device: Device<'a>) -> (r: Vec<(String, String)>)
    ensures
        r@.len() == DISCOVERY_SENSOR_COUNT,
        forall|i: int|
            0 <= i < DISCOVERY_SENSOR_COUNT ==> (#[trigger] r@[i]).0@ == spec_discovery_topic(i)
                && r@[i].1@ == spec_discovery_payload(i, basetopic@, device.spec_json()),
{
    proof {
        reveal_strlit("homeassistant/sensor/Toucan_");
        reveal_strlit("/config");
    }
    let mut out: Vec<(String, String)> = Vec::new();
    let mut i: usize = 0;
    while i < DISCOVERY_SENSOR_COUNT
        invariant
            i <= DISCOVERY_SENSOR_COUNT,
            out@.len() == i,
            forall|j: int|
                0 <= j < i ==> (#[trigger] out@[j]).0@ == spec_discovery_topic(j) && out@[j].1@
                    == spec_discovery_payload(j, basetopic@, device.spec_json()),
        decreases DISCOVERY_SENSOR_COUNT - i,
    {
        let mut topic = String::from_str("homeassistant/sensor/Toucan_");
        topic.append(u32_dec(i as u32).as_str());
        topic.append("/config");
        proof {
            assert(topic@ =~= spec_discovery_topic(i as int));
        }
        let sensor = get_sensor(i, basetopic, device);
        let payload = sensor.to_json();
        proof {
            assert(payload@ =~= spec_discovery_payload(
                i as int,
                basetopic@,
                device.spec_json(),
            ));
        }
        out.push((topic, payload));
        i = i + 1;
    }
    out
}

} // verus!
