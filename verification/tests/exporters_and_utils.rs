//! The textual exporters, the serial-gateway conversions with their
//! checksum, and the utility containers.

use bms_gateway::bms::{Bms, BmsConfig};
use bms_gateway::bytes_writer::{ByteMutWriter, ByteMutWriterCap};
use bms_gateway::cells::{MapCell, OptionalCell, TakeCell};
use bms_gateway::config::{Fault, GlobalState, State};
use bms_gateway::decimal::{i32_dec, u32_dec};
use bms_gateway::errors::StmError;
use bms_gateway::ha::{DeviceBuilder, SensorBuilder};
use bms_gateway::http::{
    cell_stats, construct_response, FileName, HttpRequestType, HttpType,
};
use bms_gateway::minmax::MinMax;
use bms_gateway::discovery::discovery_messages;
use bms_gateway::modbus::{
    convert_rtu_request_payload_to_tcp_request_payload,
    convert_tcp_request_payload_to_rtu_request_payload, crc_check, create_crc, is_rtu_error,
    parse_rtu_request, payload_length, update_from_rtu_error, update_from_rtu_response,
};
use bms_gateway::mqtt_format::MqttFormat;
use bms_gateway::rtc::{convert_rtc_to_payload, DateTime, CLOCK_EPOCH_SECS};
use bms_gateway::subslice::{SubSlice, SubSliceMut};
use bms_gateway::syslog::{add, format_syslog_line, SyslogMessage};

#[test]
fn it_works() {
    let result = add(2, 2);
    assert_eq!(result, 4);
}

#[test]
fn decimal_rendering() {
    assert_eq!(u32_dec(0), "0");
    assert_eq!(u32_dec(7), "7");
    assert_eq!(u32_dec(36377), "36377");
    assert_eq!(u32_dec(u32::MAX), "4294967295");
    assert_eq!(i32_dec(-125), "-125");
    assert_eq!(i32_dec(0), "0");
    assert_eq!(i32_dec(i32::MIN), "-2147483648");
}

#[test]
fn mqtt_message_renders_snapshot() {
    let mut config = BmsConfig::default();
    config.set_discharge_limts(0, 350).unwrap();
    let mut bms = Bms::new(config);
    assert!(bms.set_soc(650).is_ok());
    assert!(bms.set_pack_volts(36377).is_ok());
    assert!(bms.set_cell_mv_low_high(3771, 3797).is_ok());
    assert!(bms.set_temps(-50, 200).is_ok());
    assert!(bms.set_current(-125).is_ok());
    assert!(bms.set_kwh(2200).is_ok());
    assert!(bms.set_max_charge_amps(460).is_ok());
    assert!(bms.set_max_discharge_amps(350).is_ok());
    assert!(bms.set_valid(true).is_ok());
    let fmt = MqttFormat::from(&bms);
    let json = fmt.device_update_msg();
    assert_eq!(
        json,
        "{\"soc\":650,\"volts\":36377,\"cell_mv_high\":3797,\"cell_mv_low\":3771,\
         \"cell_temp_high\":200,\"cell_temp_low\":-50,\"amps\":-125,\"kwh\":2200,\
         \"charge\":460,\"discharge\":350,\"bal\":0,\"valid\":true}"
    );
    let dflt = MqttFormat::default();
    assert!(!dflt.valid);
    assert!(dflt.device_update_msg().ends_with("\"valid\":false}"));
}

#[test]
fn discovery_sensor_renders_json() {
    let device = DeviceBuilder::default()
        .identifiers("pack01")
        .name("Battery Gateway")
        .manufacturer("Rand")
        .model("Gateway BMS")
        .serial_number("0001")
        .hw_version("1.0")
        .sw_version("2.0")
        .configuration_url("https://gateway.local")
        .build();
    let sensor = SensorBuilder::default()
        .device_class("battery")
        .state_topic("bms/state")
        .unit_of_measurement("%")
        .value_template("{{ value_json.soc }}")
        .state_class("measurement")
        .unique_id("SoC")
        .name("SoC")
        .device(device)
        .build();
    let json = sensor.to_json_checked().unwrap();
    assert_eq!(
        json,
        "{\"device_class\":\"battery\",\"state_topic\":\"bms/state\",\
         \"unit_of_measurement\":\"%\",\"value_template\":\"{{ value_json.soc }}\",\
         \"state_class\":\"measurement\",\"unique_id\":\"SoC\",\"name\":\"SoC\",\
         \"device\":{\"identifiers\":[\"pack01\"],\"name\":\"Battery Gateway\",\
         \"manufacturer\":\"Rand\",\"model\":\"Gateway BMS\",\"serial_number\":\"0001\",\
         \"hw_version\":\"1.0\",\"sw_version\":\"2.0\",\
         \"configuration_url\":\"https://gateway.local\"}}"
    );
    // A field that would need escaping is refused rather than emitted.
    let bad = SensorBuilder::default()
        .device_class("battery\"")
        .state_topic("bms/state")
        .unit_of_measurement("%")
        .value_template("x")
        .state_class("measurement")
        .unique_id("SoC")
        .name("SoC")
        .device(device)
        .build();
    assert!(bad.to_json_checked().is_none());
}

#[test]
fn syslog_line_format() {
    let message = SyslogMessage {
        priority: 1,
        hostname: "FooHost",
        source: "FooSource",
        proc_id: "123",
        message: "My test",
        message_data: "Some=123",
        datetime: DateTime { year: 2024, month: 3, day: 27, hour: 9, minute: 5, second: 59 },
    };
    let line = format_syslog_line(&message, 17);
    assert_eq!(line, "<1>1 2024-3-27T9:5:59.0Z FooHost 123 ID17 [Some=123] My test\n");
}

#[test]
fn http_pieces() {
    assert_eq!(FileName::Index.as_bytes(), b"index.html");
    assert!(matches!(FileName::from_bytes(b"settings.html"), Ok(FileName::Settings)));
    assert!(matches!(
        FileName::from_bytes(b"nosuch.html"),
        Err(StmError::InvalidFileName)
    ));
    assert_eq!(HttpType::Json.as_str(), "application/json");
    assert!(matches!(HttpRequestType::from_str("GET"), HttpRequestType::Get));
    assert!(matches!(HttpRequestType::from_str("POST"), HttpRequestType::Post));
    assert!(matches!(HttpRequestType::from_str("PUT"), HttpRequestType::Invalid));
    assert!(HttpRequestType::decode(None).is_err());

    let mut response = String::new();
    assert!(construct_response("{\"ok\":1}", HttpType::Json, &mut response).is_ok());
    assert_eq!(
        response,
        "HTTP/1.1 200 OK\r\nContent-Type: application/json\r\nContent-Length: 8\r\n\r\n{\"ok\":1}"
    );

    let mut bms = Bms::new(BmsConfig::default());
    bms.cell_mv = [3780; 96];
    bms.bal_cells[0] = true;
    let stats = cell_stats(&bms);
    assert!(stats.starts_with("3780,1,3780,0,"));
    assert_eq!(stats.matches("3780").count(), 96);
}

#[test]
fn modbus_crc_and_conversions() {
    // The serial-line checksum of the reference message.
    assert_eq!(create_crc(b"123456789"), [0x37, 0x4B]);

    // A request whose trailing checksum matches is accepted; the same
    // frame with a corrupted final byte is rejected and nothing is
    // parsed from it.
    let body = [0x01u8, 0x03, 0x00, 0x00, 0x00, 0x02];
    let crc = create_crc(&body);
    let mut frame = [0u8; 8];
    frame[..6].copy_from_slice(&body);
    frame[6] = crc[0];
    frame[7] = crc[1];
    assert!(crc_check(&frame).is_ok());
    let parsed = parse_rtu_request(&frame).unwrap();
    assert_eq!(parsed.slave_address, 1);
    assert_eq!(parsed.function, 3);
    assert_eq!(parsed.address, 0);
    assert_eq!(parsed.quantity, 2);

    let mut corrupted = frame;
    corrupted[7] ^= 0xFF;
    assert!(crc_check(&corrupted).is_err());
    assert!(parse_rtu_request(&corrupted).is_err());

    // Serial to TCP: header plus the request without its checksum.
    let mut counter: u16 = 41;
    let tcp = convert_rtu_request_payload_to_tcp_request_payload(&frame, &mut counter).unwrap();
    assert_eq!(counter, 42);
    assert_eq!(&tcp[..], &[0, 42, 0, 0, 0, 6, 0x01, 0x03, 0x00, 0x00, 0x00, 0x02]);

    // TCP to serial: the data unit with a fresh checksum appended.
    let rtu = convert_tcp_request_payload_to_rtu_request_payload(&tcp, &mut counter).unwrap();
    assert_eq!(&rtu[..6], &body);
    assert_eq!(&rtu[6..], &crc);
    assert_eq!(counter, 42);

    assert!(is_rtu_error(&[0x01, 0x03, 0x83]));
    assert!(!is_rtu_error(&[0x01, 0x03, 0x02]));
    assert_eq!(payload_length(&[0x01, 0x03, 0x02]), Some(4));
    assert_eq!(payload_length(&[0x01]), None);
}

#[test]
fn byte_writers_truncate_at_capacity() {
    let mut w = ByteMutWriter::new(vec![0u8; 8]);
    w.write_str("hello");
    assert_eq!(w.cursor(), 5);
    assert_eq!(w.as_str(), "hello");
    w.write_str(" world");
    assert_eq!(w.cursor(), 8);
    assert_eq!(w.as_bytes(), b"hello wo");
    assert!(w.full());
    w.clear();
    assert_eq!(w.cursor(), 0);
    assert!(w.empty());

    let mut c: ByteMutWriterCap<4> = ByteMutWriterCap::new();
    assert_eq!(c.capacity(), 4);
    assert!(c.is_empty());
    c.write_str("abcdef");
    assert_eq!(c.len(), 4);
    assert!(c.full());
    assert_eq!(c.as_str(), "abcd");
    c.clear();
    assert!(c.empty());
}

#[test]
fn value_cells_behave_like_options() {
    let mut t = TakeCell::new(10u32);
    assert!(t.is_some());
    assert_eq!(t.map(|v| (v + 1, v)), Some(10));
    assert_eq!(t.take(), Some(11));
    assert!(t.is_none());
    t.put(Some(5));
    assert_eq!(t.replace(6), Some(5));

    let mut m = MapCell::empty();
    assert!(m.is_none());
    m.put(20i64);
    assert_eq!(m.get(), Some(20));
    assert_eq!(m.replace(30), Some(20));
    assert_eq!(m.take(), Some(30));
    m.modify_or_replace(|v| v + 1, || 7);
    assert_eq!(m.get(), Some(7));

    let mut o = OptionalCell::new(3u8);
    assert!(o.is_some());
    assert!(o.contains(&3));
    assert!(!o.contains(&4));
    assert_eq!(o.get(), Some(3));
    assert_eq!(o.map(|v| v * 2), Some(6));
    assert_eq!(o.unwrap_or(9), 3);
    o.clear();
    assert!(o.is_none());
    assert_eq!(o.unwrap_or(9), 9);
    o.set(4);
    assert_eq!(o.take(), Some(4));
    assert_eq!(OptionalCell::<u8>::empty().ok_or("gone"), Err("gone"));
}

#[test]
fn leasable_buffers_window_and_reset() {
    let mut s = SubSliceMut::new(vec![1u8, 2, 3, 4, 5]);
    assert_eq!(s.len(), 5);
    s.slice(1, 4);
    assert_eq!(s.len(), 3);
    assert_eq!(s.as_slice(), &[2, 3, 4]);
    assert!(s.is_sliced());
    s.reset();
    assert_eq!(s.len(), 5);
    assert!(!s.is_sliced());
    assert_eq!(s.take(), vec![1, 2, 3, 4, 5]);

    let mut s = SubSlice::new(vec![9u16, 8, 7]);
    s.slice(0, 2);
    assert_eq!(s.active_slice(), &[9, 8]);
}

#[test]
fn global_state_and_clock_payload() {
    let mut gs = GlobalState::default();
    assert!(matches!(gs.state(), State::Offline));
    gs.set_state(State::Online);
    gs.set_fault(Fault::InvFault);
    assert!(matches!(gs.state(), State::Online));
    assert!(matches!(gs.fault(), Fault::InvFault));

    // One hour past the clock reference: sixty minutes, low byte only,
    // repeated, then the fixed marker.
    let payload = convert_rtc_to_payload(CLOCK_EPOCH_SECS + 3600);
    assert_eq!(payload, [0, 0, 60, 0, 0, 60, 0x4A, 0x54]);
}

#[test]
fn discovery_announces_every_sensor() {
    let device = DeviceBuilder::default()
        .identifiers("pack01")
        .name("Battery Gateway")
        .manufacturer("Rand")
        .model("Gateway BMS")
        .serial_number("0001")
        .hw_version("1.0")
        .sw_version("2.0")
        .configuration_url("https://gateway.local")
        .build();
    let messages = discovery_messages("bms/state", device);
    assert_eq!(messages.len(), 11);
    assert_eq!(messages[0].0, "homeassistant/sensor/Toucan_0/config");
    assert_eq!(messages[10].0, "homeassistant/sensor/Toucan_10/config");
    assert!(messages[0].1.starts_with(
        "{\"device_class\":\"battery\",\"state_topic\":\"bms/state\",\
         \"unit_of_measurement\":\"%\",\"value_template\":\"{{ value_json.soc }}\""
    ));
    assert!(messages[1].1.contains("\"name\":\"Pack Volts\""));
    assert!(messages[10].1.contains("\"value_template\":\"{{ value_json.valid }}\""));
    for (_, payload) in &messages {
        assert!(payload.ends_with(
            "\"configuration_url\":\"https://gateway.local\"}}"
        ));
    }
}

#[test]
fn bridge_builds_tcp_responses() {
    let header = [0x00u8, 0x2a, 0x00, 0x00, 0x00, 0x06, 0x01, 0x03, 0x00, 0x00, 0x00, 0x02];
    // A good serial response: address, function, byte count, data, checksum.
    let rtu = [0x01u8, 0x03, 0x04, 0x11, 0x22, 0x33, 0x44, 0xaa, 0xbb];
    let tcp = update_from_rtu_response(&header, &rtu).unwrap();
    assert_eq!(
        &tcp[..],
        &[0x00, 0x2a, 0x00, 0x00, 0x00, 0x07, 0x01, 0x03, 0x04, 0x11, 0x22, 0x33, 0x44]
    );
    // A serial error response maps to a three-byte error body.
    let err = [0x01u8, 0x83, 0x02];
    let tcp = update_from_rtu_error(&header, &err).unwrap();
    assert_eq!(&tcp[..], &[0x00, 0x2a, 0x00, 0x00, 0x00, 0x03, 0x01, 0x83, 0x02]);
    assert!(update_from_rtu_response(&header, &[0x01, 0x03]).is_err());
}
