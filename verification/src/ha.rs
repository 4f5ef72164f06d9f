//! Home-automation discovery records: a device and its sensors, built
//! with builders and rendered as JSON objects.

use vstd::prelude::*;
use vstd::string::StringSliceAdditionalSpecFns;

verus! {

/// A discoverable device.
#[derive(Debug, Clone, Copy)]
pub struct Device<'a> {
    pub identifiers: [&'a str; 1],
    pub name: &'a str,
    pub manufacturer: &'a str,
    pub model: &'a str,
    pub serial_number: &'a str,
    pub hw_version: &'a str,
    pub sw_version: &'a str,
    pub configuration_url: &'a str,
}

/// One sensor of a device.
#[derive(Debug, Clone, Copy)]
pub struct Sensor<'a> {
    pub device_class: &'a str,
    pub state_topic: &'a str,
    pub unit_of_measurement: &'a str,
    pub value_template: &'a str,
    pub state_class: &'a str,
    pub unique_id: &'a str,
    pub name: &'a str,
    pub device: Device<'a>,
}

/// A builder for [`Sensor`]; `build` needs every field set.
pub struct SensorBuilder<'a> {
    pub device_class: Option<&'a str>,
    pub state_topic: Option<&'a str>,
    pub unit_of_measurement: Option<&'a str>,
    pub value_template: Option<&'a str>,
    pub state_class: Option<&'a str>,
    pub name: Option<&'a str>,
    pub unique_id: Option<&'a str>,
    pub device: Option<Device<'a>>,
}

impl<'a> SensorBuilder<'a> {
    pub fn device_class(self, device_class: &'a str) -> (r: SensorBuilder<'a>)
        ensures
            r == (SensorBuilder { device_class: Some(device_class), ..self }),
    {
        SensorBuilder { device_class: Some(device_class), ..self }
    }

    pub fn unique_id(self, unique_id: &'a str) -> (r: SensorBuilder<'a>)
        ensures
            r == (SensorBuilder { unique_id: Some(unique_id), ..self }),
    {
        SensorBuilder { unique_id: Some(unique_id), ..self }
    }

    pub fn state_topic(self, state_topic: &'a str) -> (r: SensorBuilder<'a>)
        ensures
            r == (SensorBuilder { state_topic: Some(state_topic), ..self }),
    {
        SensorBuilder { state_topic: Some(state_topic), ..self }
    }

    pub fn unit_of_measurement(self, unit_of_measurement: &'a str) -> (r: SensorBuilder<'a>)
        ensures
            r == (SensorBuilder { unit_of_measurement: Some(unit_of_measurement), ..self }),
    {
        SensorBuilder { unit_of_measurement: Some(unit_of_measurement), ..self }
    }

    pub fn value_template(self, value_template: &'a str) -> (r: SensorBuilder<'a>)
        ensures
            r == (SensorBuilder { value_template: Some(value_template), ..self }),
    {
        SensorBuilder { value_template: Some(value_template), ..self }
    }

    pub fn name(self, unique_name: &'a str) -> (r: SensorBuilder<'a>)
        ensures
            r == (SensorBuilder { name: Some(unique_name), ..self }),
    {
        SensorBuilder { name: Some(unique_name), ..self }
    }

    pub fn state_class(self, state_class: &'a str) -> (r: SensorBuilder<'a>)
        ensures
            r == (SensorBuilder { state_class: Some(state_class), ..self }),
    {
        SensorBuilder { state_class: Some(state_class), ..self }
    }

    pub fn device(self, device: Device<'a>) -> (r: SensorBuilder<'a>)
        ensures
            r == (SensorBuilder { device: Some(device), ..self }),
    {
        SensorBuilder { device: Some(device), ..self }
    }

    /// Assemble the sensor; every field must have been supplied.
    pub fn build(self) -> (r: Sensor<'a>)
        requires
            self.device_class is Some,
            self.state_topic is Some,
            self.unit_of_measurement is Some,
            self.unique_id is Some,
            self.value_template is Some,
            self.name is Some,
            self.device is Some,
            self.state_class is Some,
        ensures
            r.device_class == self.device_class.unwrap(),
            r.state_topic == self.state_topic.unwrap(),
            r.unit_of_measurement == self.unit_of_measurement.unwrap(),
            r.unique_id == self.unique_id.unwrap(),
            r.value_template == self.value_template.unwrap(),
            r.name == self.name.unwrap(),
            r.device == self.device.unwrap(),
            r.state_class == self.state_class.unwrap(),
    {
        Sensor {
            device_class: self.device_class.unwrap(),
            state_topic: self.state_topic.unwrap(),
            unit_of_measurement: self.unit_of_measurement.unwrap(),
            unique_id: self.unique_id.unwrap(),
            value_template: self.value_template.unwrap(),
            name: self.name.unwrap(),
            device: self.device.unwrap(),
            state_class: self.state_class.unwrap(),
        }
    }
}

impl<'a> Default for SensorBuilder<'a> {
    fn default() -> (r: SensorBuilder<'a>)
        ensures
            r.device_class is None,
            r.state_topic is None,
            r.unit_of_measurement is None,
            r.value_template is None,
            r.state_class is None,
            r.name is None,
            r.unique_id is None,
            r.device is None,
    {
        SensorBuilder {
            device_class: None,
            state_topic: None,
            unit_of_measurement: None,
            value_template: None,
            state_class: None,
            name: None,
            unique_id: None,
            device: None,
        }
    }
}

/// A builder for [`Device`]; `build` needs every field set.
pub struct DeviceBuilder<'a> {
    pub identifiers: [&'a str; 1],
    pub name: Option<&'a str>,
    pub manufacturer: Option<&'a str>,
    pub model: Option<&'a str>,
    pub serial_number: Option<&'a str>,
    pub hw_version: Option<&'a str>,
    pub sw_version: Option<&'a str>,
    pub configuration_url: Option<&'a str>,
}

impl<'a> DeviceBuilder<'a> {
    pub fn identifiers(self, identifiers: &'a str) -> (r: DeviceBuilder<'a>)
        ensures
            r == (DeviceBuilder { identifiers: [identifiers], ..self }),
    {
        DeviceBuilder { identifiers: [identifiers], ..self }
    }

    pub fn name(self, name: &'a str) -> (r: DeviceBuilder<'a>)
        ensures
            r == (DeviceBuilder { name: Some(name), ..self }),
    {
        DeviceBuilder { name: Some(name), ..self }
    }

    pub fn manufacturer(self, manufacturer: &'a str) -> (r: DeviceBuilder<'a>)
        ensures
            r == (DeviceBuilder { manufacturer: Some(manufacturer), ..self }),
    {
        DeviceBuilder { manufacturer: Some(manufacturer), ..self }
    }

    pub fn model(self, model: &'a str) -> (r: DeviceBuilder<'a>)
        ensures
            r == (DeviceBuilder { model: Some(model), ..self }),
    {
        DeviceBuilder { model: Some(model), ..self }
    }

    pub fn serial_number(self, serial_number: &'a str) -> (r: DeviceBuilder<'a>)
        ensures
            r == (DeviceBuilder { serial_number: Some(serial_number), ..self }),
    {
        DeviceBuilder { serial_number: Some(serial_number), ..self }
    }

    pub fn hw_version(self, hw_version: &'a str) -> (r: DeviceBuilder<'a>)
        ensures
            r == (DeviceBuilder { hw_version: Some(hw_version), ..self }),
    {
        DeviceBuilder { hw_version: Some(hw_version), ..self }
    }

    pub fn sw_version(self, sw_version: &'a str) -> (r: DeviceBuilder<'a>)
        ensures
            r == (DeviceBuilder { sw_version: Some(sw_version), ..self }),
    {
        DeviceBuilder { sw_version: Some(sw_version), ..self }
    }

    pub fn configuration_url(self, configuration_url: &'a str) -> (r: DeviceBuilder<'a>)
        ensures
            r == (DeviceBuilder { configuration_url: Some(configuration_url), ..self }),
    {
        DeviceBuilder { configuration_url: Some(configuration_url), ..self }
    }

    /// Assemble the device; every field must have been supplied.
    pub fn build(self) -> (r: Device<'a>)
        requires
            self.name is Some,
            self.manufacturer is Some,
            self.model is Some,
            self.serial_number is Some,
            self.hw_version is Some,
            self.sw_version is Some,
            self.configuration_url is Some,
        ensures
            r.identifiers == self.identifiers,
            r.name == self.name.unwrap(),
            r.manufacturer == self.manufacturer.unwrap(),
            r.model == self.model.unwrap(),
            r.serial_number == self.serial_number.unwrap(),
            r.hw_version == self.hw_version.unwrap(),
            r.sw_version == self.sw_version.unwrap(),
            r.configuration_url == self.configuration_url.unwrap(),
    {
        Device {
            identifiers: self.identifiers,
            name: self.name.unwrap(),
            manufacturer: self.manufacturer.unwrap(),
            model: self.model.unwrap(),
            serial_number: self.serial_number.unwrap(),
            hw_version: self.hw_version.unwrap(),
            sw_version: self.sw_version.unwrap(),
            configuration_url: self.configuration_url.unwrap(),
        }
    }
}

impl<'a> Default for DeviceBuilder<'a> {
    /// Every optional field unset; the identifier list holds one
    /// empty string until `identifiers` replaces it.
    fn default() -> (r: DeviceBuilder<'a>)
        ensures
            r.identifiers[0]@ =~= Seq::<char>::empty(),
            r.name is None,
            r.manufacturer is None,
            r.model is None,
            r.serial_number is None,
            r.hw_version is None,
            r.sw_version is None,
            r.configuration_url is None,
    {
        proof {
            reveal_strlit("");
        }
        DeviceBuilder {
            identifiers: [""],
            name: None,
            manufacturer: None,
            model: None,
            serial_number: None,
            hw_version: None,
            sw_version: None,
            configuration_url: None,
        }
    }
}

/// Text that can stand inside a JSON string without escaping: no
/// quotation mark, no backslash, no control byte.
pub open spec fn json_clean(bytes: Seq<u8>) -> bool {
    forall|i: int| 0 <= i < bytes.len() ==> bytes[i] != 34 && bytes[i] != 92 && bytes[i] >= 32
}

/// Whether `s` can stand inside a JSON string without escaping.
pub fn str_is_json_clean(s: &str) -> (r: bool)
    ensures
        r == json_clean(s.spec_bytes()),
{
    let bytes = s.as_bytes();
    let mut i: usize = 0;
    let mut clean = true;
    while i < bytes.len()
        invariant
            i <= bytes@.len(),
            clean == (forall|j: int|
                0 <= j < i ==> (#[trigger] bytes@[j]) != 34 && bytes@[j] != 92 && bytes@[j] >= 32),
        decreases bytes@.len() - i,
    {
        let b = bytes[i];
        if b == 34 || b == 92 || b < 32 {
            clean = false;
        }
        i = i + 1;
    }
    clean
}

/// A JSON key-value pair `"key":"value",` appended to `out`.
fn push_kv(out: &mut String, key: &str, value: &str)
    ensures
        final(out)@ == old(out)@ + "\""@ + key@ + "\":\""@ + value@ + "\","@,
{
    proof {
        reveal_strlit("\"");
        reveal_strlit("\":\"");
        reveal_strlit("\",");
    }
    out.append("\"");
    out.append(key);
    out.append("\":\"");
    out.append(value);
    out.append("\",");
    proof {
        assert(out@ =~= old(out)@ + "\""@ + key@ + "\":\""@ + value@ + "\","@);
    }
}

/// A sensor JSON object assembled from its parts.
pub open spec fn spec_sensor_json(
    device_class: Seq<char>,
    state_topic: Seq<char>,
    unit_of_measurement: Seq<char>,
    value_template: Seq<char>,
    state_class: Seq<char>,
    unique_id: Seq<char>,
    name: Seq<char>,
    device_json: Seq<char>,
) -> Seq<char> {
    "{"@ + "\""@ + "device_class"@ + "\":\""@ + device_class + "\","@ + "\""@ + "state_topic"@
        + "\":\""@ + state_topic + "\","@ + "\""@ + "unit_of_measurement"@ + "\":\""@
        + unit_of_measurement + "\","@ + "\""@ + "value_template"@ + "\":\""@ + value_template
        + "\","@ + "\""@ + "state_class"@ + "\":\""@ + state_class + "\","@ + "\""@
        + "unique_id"@ + "\":\""@ + unique_id + "\","@ + "\""@ + "name"@ + "\":\""@ + name
        + "\","@ + "\"device\":"@ + device_json + "}"@
}

impl<'a> Device<'a> {
    /// Every field can stand in a JSON string unescaped.
    pub open spec fn fields_clean(self) -> bool {
        &&& json_clean(self.identifiers[0].spec_bytes())
        &&& json_clean(self.name.spec_bytes())
        &&& json_clean(self.manufacturer.spec_bytes())
        &&& json_clean(self.model.spec_bytes())
        &&& json_clean(self.serial_number.spec_bytes())
        &&& json_clean(self.hw_version.spec_bytes())
        &&& json_clean(self.sw_version.spec_bytes())
        &&& json_clean(self.configuration_url.spec_bytes())
    }

    /// The device as a JSON object.
    pub open spec fn spec_json(self) -> Seq<char> {
        "{\"identifiers\":[\""@ + self.identifiers[0]@ + "\"],"@ + "\"name\":\""@ + self.name@
            + "\",\"manufacturer\":\""@ + self.manufacturer@ + "\",\"model\":\""@ + self.model@
            + "\",\"serial_number\":\""@ + self.serial_number@ + "\",\"hw_version\":\""@
            + self.hw_version@ + "\",\"sw_version\":\""@ + self.sw_version@
            + "\",\"configuration_url\":\""@ + self.configuration_url@ + "\"}"@
    }

    /// Render the device as a JSON object.
    pub fn to_json(&self) -> (r: String)
        ensures
            r@ == self.spec_json(),
    {
        proof {
            reveal_strlit("{\"identifiers\":[\"");
            reveal_strlit("\"],");
            reveal_strlit("\"name\":\"");
            reveal_strlit("\",\"manufacturer\":\"");
            reveal_strlit("\",\"model\":\"");
            reveal_strlit("\",\"serial_number\":\"");
            reveal_strlit("\",\"hw_version\":\"");
            reveal_strlit("\",\"sw_version\":\"");
            reveal_strlit("\",\"configuration_url\":\"");
            reveal_strlit("\"}");
        }
        let mut out = String::from_str("{\"identifiers\":[\"");
        out.append(self.identifiers[0]);
        out.append("\"],");
        out.append("\"name\":\"");
        out.append(self.name);
        out.append("\",\"manufacturer\":\"");
        out.append(self.manufacturer);
        out.append("\",\"model\":\"");
        out.append(self.model);
        out.append("\",\"serial_number\":\"");
        out.append(self.serial_number);
        out.append("\",\"hw_version\":\"");
        out.append(self.hw_version);
        out.append("\",\"sw_version\":\"");
        out.append(self.sw_version);
        out.append("\",\"configuration_url\":\"");
        out.append(self.configuration_url);
        out.append("\"}");
        proof {
            assert(out@ =~= self.spec_json());
        }
        out
    }
}

impl<'a> Sensor<'a> {
    /// Every field of the sensor and its device can stand in a JSON
    /// string unescaped.
    pub open spec fn fields_clean(self) -> bool {
        &&& json_clean(self.device_class.spec_bytes())
        &&& json_clean(self.state_topic.spec_bytes())
        &&& json_clean(self.unit_of_measurement.spec_bytes())
        &&& json_clean(self.value_template.spec_bytes())
        &&& json_clean(self.state_class.spec_bytes())
        &&& json_clean(self.unique_id.spec_bytes())
        &&& json_clean(self.name.spec_bytes())
        &&& self.device.fields_clean()
    }

    /// The sensor as a JSON object: its own fields, then the device.
    pub open spec fn spec_json(self) -> Seq<char> {
        spec_sensor_json(
            self.device_class@,
            self.state_topic@,
            self.unit_of_measurement@,
            self.value_template@,
            self.state_class@,
            self.unique_id@,
            self.name@,
            self.device.spec_json(),
        )
    }

    /// Render the sensor as a JSON object.
    pub fn to_json(&self) -> (r: String)
        ensures
            r@ == self.spec_json(),
    {
        proof {
            reveal_strlit("{");
            reveal_strlit("}");
            reveal_strlit("device_class");
            reveal_strlit("state_topic");
            reveal_strlit("unit_of_measurement");
            reveal_strlit("value_template");
            reveal_strlit("state_class");
            reveal_strlit("unique_id");
            reveal_strlit("name");
            reveal_strlit("\"device\":");
        }
        let mut out = String::from_str("{");
        push_kv(&mut out, "device_class", self.device_class);
        push_kv(&mut out, "state_topic", self.state_topic);
        push_kv(&mut out, "unit_of_measurement", self.unit_of_measurement);
        push_kv(&mut out, "value_template", self.value_template);
        push_kv(&mut out, "state_class", self.state_class);
        push_kv(&mut out, "unique_id", self.unique_id);
        push_kv(&mut out, "name", self.name);
        out.append("\"device\":");
        let dev = self.device.to_json();
        out.append(dev.as_str());
        out.append("}");
        proof {
            assert(out@ =~= self.spec_json());
        }
        out
    }

    /// Render the sensor as JSON, checking first that every field can
    /// stand in a JSON string unescaped; `None` otherwise.
    pub fn to_json_checked(&self) -> (r: Option<String>)
        ensures
            r matches Some(s) ==> s@ == self.spec_json() && self.fields_clean(),
            r is None ==> !self.fields_clean(),
    {
        if str_is_json_clean(self.device_class) && str_is_json_clean(self.state_topic)
            && str_is_json_clean(self.unit_of_measurement) && str_is_json_clean(
            self.value_template,
        ) && str_is_json_clean(self.state_class) && str_is_json_clean(self.unique_id)
            && str_is_json_clean(self.name) && str_is_json_clean(self.device.identifiers[0])
            && str_is_json_clean(self.device.name) && str_is_json_clean(self.device.manufacturer)
            && str_is_json_clean(self.device.model) && str_is_json_clean(self.device.serial_number)
            && str_is_json_clean(self.device.hw_version) && str_is_json_clean(
            self.device.sw_version,
        ) && str_is_json_clean(self.device.configuration_url) {
            Some(self.to_json())
        } else {
            None
        }
    }
}

} // verus!
