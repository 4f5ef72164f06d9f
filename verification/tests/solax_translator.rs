//! The Solax translator against its reference exchange: the announce
//! frame on first contact, then the full status-frame set, and the
//! benign/fatal error split.

use bms_gateway::bms::{Bms, BmsConfig};
use bms_gateway::frame::{CanFrame, FrameId};
use bms_gateway::solax::{SolaxBms, SolaxError};

fn reference_bms() -> Bms {
    let mut config = BmsConfig::default();
    config.set_discharge_limts(0, 350).unwrap();
    let mut bms = Bms::new(config);
    assert!(bms.set_soc(421).is_ok()); // 42.1 %
    assert!(bms.set_max_charge_amps(500).is_ok()); // 50.0 A
    assert!(bms.set_max_discharge_amps(350).is_ok()); // 35.0 A
    assert!(bms.set_current(100).is_ok()); // 1.0 A
    assert!(bms.set_cell_mv_low_high(4000, 4100).is_ok());
    assert!(bms.set_temps(220, 230).is_ok()); // 22.0 / 23.0 C
    assert!(bms.set_pack_volts(37550).is_ok()); // 375.5 V
    assert!(bms.set_kwh(1250).is_ok()); // 12.5 kWh
    assert!(bms.set_pack_temp(225).is_ok()); // 22.5 C
    assert!(bms.set_valid(true).is_ok());
    bms
}

#[test]
fn solax_can_test() {
    let mut solax = SolaxBms::new();
    let bms = reference_bms();

    let request = CanFrame::new8(
        FrameId::Extended(0x1871),
        [1, 0, 1, 0, 0, 0, 0, 0],
    );

    let response = solax.parser(request, &bms, true);
    match response {
        Ok(testf) => {
            let f = testf[0];
            assert_eq!(0, f.dlc());
            assert!(FrameId::Extended(0x100A001) == f.id);
            assert_eq!(testf.len(), 1);
        }
        Err(e) => panic!("{:?}", e),
    };

    let response = solax.parser(request, &bms, true);
    match response {
        Ok(f) => {
            let testf = f[0];
            assert_eq!(8, testf.dlc());
            assert!(FrameId::Extended(0x1877) == testf.id);
            assert_eq!([0, 0, 0, 0, 0, 0, 247, 22], testf.data);

            let testf = f[1];
            assert!(FrameId::Extended(0x1872) == testf.id);
            assert_eq!([0xa0, 0x0f, 0xb8, 0x0b, 0xf4, 0x01, 0x5e, 0x01], testf.data);

            let testf = f[2];
            assert!(FrameId::Extended(0x1873) == testf.id);
            assert_eq!([0xab, 0x0e, 0x0a, 0x00, 0x2a, 0x00, 0xe2, 0x04], testf.data);

            let testf = f[3];
            assert!(FrameId::Extended(0x1874) == testf.id);
            assert_eq!([0xe6, 0x00, 0xdc, 0x00, 0x29, 0x00, 0x28, 0x00], testf.data);

            let testf = f[4];
            assert!(FrameId::Extended(0x1875) == testf.id);
            assert_eq!([0xe1, 0x00, 0x01, 0x00, 0x01, 0x00, 0x00, 0x00], testf.data);

            let testf = f[5];
            assert!(FrameId::Extended(0x1876) == testf.id);
            assert_eq!([0x01, 0x00, 0x04, 0x10, 0x00, 0x00, 0xa0, 0x0f], testf.data);

            let testf = f[6];
            assert!(FrameId::Extended(0x1878) == testf.id);
            assert_eq!([0xab, 0x0e, 0x00, 0x00, 0x10, 0x27, 0x00, 0x00], testf.data);
            assert_eq!(f.len(), 7);
        }
        Err(e) => panic!("{:?}", e),
    };
}

#[test]
fn solax_unknown_extended_id_is_benign() {
    // An inverter request frame with an unrecognized arbitration id is
    // classified as an unwanted frame, not a fatal error: the polling
    // loop continues and the contactor signal is untouched.
    let mut solax = SolaxBms::new();
    let bms = reference_bms();
    let stray = CanFrame::new8(FrameId::Extended(0x1999), [1, 0, 1, 0, 0, 0, 0, 0]);
    match solax.parser(stray, &bms, true) {
        Err(e) => {
            assert!(matches!(e, SolaxError::UnwantedFrame));
            assert!(!e.is_fatal());
        }
        Ok(_) => panic!("expected a benign rejection"),
    }
}

#[test]
fn solax_standard_id_is_fatal() {
    let mut solax = SolaxBms::new();
    let bms = reference_bms();
    let stray = CanFrame::new8(FrameId::Standard(0x123), [1, 0, 1, 0, 0, 0, 0, 0]);
    match solax.parser(stray, &bms, true) {
        Err(e) => {
            assert!(matches!(e, SolaxError::BadId(0x123)));
            assert!(e.is_fatal());
        }
        Ok(_) => panic!("expected a fatal rejection"),
    }
}

#[test]
fn solax_timestamp_is_benign() {
    let mut solax = SolaxBms::new();
    let bms = reference_bms();
    let time = CanFrame::new8(FrameId::Extended(0x1871), [2, 24, 5, 17, 12, 30, 45, 0]);
    match solax.parser(time, &bms, true) {
        Err(SolaxError::TimeStamp(t)) => {
            assert_eq!(t, [24, 5, 17, 12, 30, 45]);
            assert!(!SolaxError::TimeStamp(t).is_fatal());
        }
        other => panic!("{:?}", other),
    }
}
