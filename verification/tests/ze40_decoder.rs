//! The ZE40 decoder against the vendor reference fixture: the periodic
//! preamble frames, one full rapid cycle, and one full diagnostic
//! cycle (cell bank 1, cell bank 2, balance map, temperatures).
//!
//! Quantities are scaled integers: current in centiamps, energy in
//! centi-kilowatt-hours, temperatures in deci-degrees Celsius, pack
//! voltage in centivolts.

use bms_gateway::bms::{Bms, BmsConfig};
use bms_gateway::frame::{CanFrame, FrameId};
use bms_gateway::ze40::{
    request_frame, BMSStatus, ChargingState, Data, LbcKey, RequestMode,
};

const BALDATA8: [[u8; 8]; 3] = [
    [0x10, 0x0E, 0x61, 0x07, 0x00, 0x00, 0x00, 0x00],
    [0x21, 0xFF, 0x00, 0x00, 0x00, 0x00, 0x00, 0x00],
    [0x22, 0x00, 0x00, 0x00, 0x00, 0x00, 0x00, 0x00],
];
const BALDATA96: [[u8; 8]; 3] = [
    [0x10, 0x0E, 0x61, 0x07, 0xFF, 0xFF, 0xFF, 0xFF],
    [0x21, 0xFF, 0xFF, 0xFF, 0xFF, 0xFF, 0xFF, 0xFF],
    [0x22, 0xFF, 0xFF, 0x00, 0x00, 0x00, 0x00, 0x00],
];

const CELL1DATA: [[u8; 8]; 19] = [
    [0x10, 0x7E, 0x61, 0x41, 0x0E, 0xD1, 0x0E, 0xD0],
    [0x21, 0x0E, 0xCF, 0x0E, 0xD1, 0x0E, 0xD0, 0x0E],
    [0x22, 0xD0, 0x0E, 0xD0, 0x0E, 0xD2, 0x0E, 0xCF],
    [0x23, 0x0E, 0xD0, 0x0E, 0xCA, 0x0E, 0xCD, 0x0E],
    [0x24, 0xCC, 0x0E, 0xCD, 0x0E, 0xCB, 0x0E, 0xCF],
    [0x25, 0x0E, 0xCF, 0x0E, 0xCF, 0x0E, 0xCD, 0x0E],
    [0x26, 0xCC, 0x0E, 0xCD, 0x0E, 0xCF, 0x0E, 0xCA],
    [0x27, 0x0E, 0xCC, 0x0E, 0xD0, 0x0E, 0xC9, 0x0E],
    [0x28, 0xCB, 0x0E, 0xC9, 0x0E, 0xCD, 0x0E, 0xCB],
    [0x29, 0x0E, 0xC5, 0x0E, 0xC5, 0x0E, 0xD4, 0x0E],
    [0x2A, 0xCF, 0x0E, 0xC6, 0x0E, 0xCD, 0x0E, 0xCC],
    [0x2B, 0x0E, 0xCC, 0x0E, 0xCA, 0x0E, 0xCD, 0x0E],
    [0x2C, 0xD1, 0x0E, 0xD1, 0x0E, 0xCD, 0x0E, 0xCC],
    [0x2D, 0x0E, 0xD0, 0x0E, 0xD0, 0x0E, 0xCF, 0x0E],
    [0x2E, 0xD2, 0x0E, 0xD1, 0x0E, 0xD4, 0x0E, 0xD2],
    [0x2F, 0x0E, 0xD0, 0x0E, 0xD0, 0x0E, 0xD0, 0x0E],
    [0x20, 0xD2, 0x0E, 0xD1, 0x0E, 0xD2, 0x0E, 0xD0],
    [0x21, 0x0E, 0xCF, 0x0E, 0xD0, 0x0E, 0xCF, 0x0E],
    [0x22, 0xD0, 0x00, 0x00, 0x00, 0x00, 0x00, 0x00],
];

const CELL2DATA: [[u8; 8]; 11] = [
    [0x10, 0x4A, 0x61, 0x42, 0x0E, 0xCB, 0x0E, 0xD1],
    [0x21, 0x0E, 0xCD, 0x0E, 0xD0, 0x0E, 0xCD, 0x0E],
    [0x22, 0xCC, 0x0E, 0xC5, 0x0E, 0xC7, 0x0E, 0xC4],
    [0x23, 0x0E, 0xC5, 0x0E, 0xC9, 0x0E, 0xC2, 0x0E],
    [0x24, 0xC4, 0x0E, 0xC2, 0x0E, 0xBB, 0x0E, 0xC0],
    [0x25, 0x0E, 0xC0, 0x0E, 0xCC, 0x0E, 0xD0, 0x0E],
    [0x26, 0xC7, 0x0E, 0xD0, 0x0E, 0xC7, 0x0E, 0xCB],
    [0x27, 0x0E, 0xC5, 0x0E, 0xC7, 0x0E, 0xD1, 0x0E],
    [0x28, 0xD0, 0x0E, 0xD4, 0x0E, 0xD1, 0x0E, 0xD0],
    [0x29, 0x0E, 0xCD, 0x0E, 0xCD, 0x0E, 0xD2, 0x0E],
    [0x2A, 0xD5, 0x8E, 0x19, 0x8E, 0x46, 0x00, 0x00],
];

const TEMPDATA: [[u8; 8]; 12] = [
    [0x10, 0x4D, 0x61, 0x04, 0x09, 0x74, 0x38, 0x09],
    [0x21, 0x74, 0x38, 0x09, 0x63, 0x39, 0x09, 0x57],
    [0x22, 0x39, 0x09, 0x52, 0x39, 0x09, 0x60, 0x39],
    [0x23, 0x09, 0x43, 0x39, 0x09, 0x3A, 0x3A, 0x09],
    [0x24, 0x37, 0x3A, 0x09, 0x48, 0x39, 0x09, 0x55],
    [0x25, 0x39, 0x09, 0x65, 0x39, 0x08, 0xD0, 0x3C],
    [0x26, 0x08, 0xE9, 0x3C, 0xFF, 0xFF, 0xFF, 0xFF],
    [0x27, 0xFF, 0xFF, 0xFF, 0xFF, 0xFF, 0xFF, 0xFF],
    [0x28, 0xFF, 0xFF, 0xFF, 0xFF, 0xFF, 0xFF, 0xFF],
    [0x29, 0xFF, 0xFF, 0xFF, 0xFF, 0xFF, 0xFF, 0xFF],
    [0x2A, 0xFF, 0xFF, 0xFF, 0xFF, 0xFF, 0x38, 0x39],
    [0x2B, 0x3C, 0x00, 0x00, 0x00, 0x00, 0x00, 0x00],
];

fn std_frame(id: u16, data: [u8; 8]) -> CanFrame {
    CanFrame::new8(FrameId::Standard(id), data)
}

#[test]
fn ze40_preamble_test() {
    let transitition_frame = Some(std_frame(
        0x423,
        [0x33, 0x7F, 0xFF, 0xFF, 0xFF, 0xE0, 0xFF, 0xFF],
    ));
    let idle_frame = Some(std_frame(
        0x423,
        [0x30, 0x7F, 0xFF, 0xFF, 0xFF, 0xE0, 0xFF, 0xFF],
    ));

    // Charging test
    {
        let f = request_frame(ChargingState::Charging, &Some(LbcKey::Xb2));
        assert!(f.is_some());
        let expected_frame = Some(std_frame(
            0x423,
            [0x7, 0x1D, 0x00, 0x02, 0xb2, 0x80, 0xb2, 200],
        ));
        assert_eq!(f, expected_frame);

        let f = request_frame(ChargingState::Charging, &Some(LbcKey::X5d));
        assert!(f.is_some());
        let expected_frame = Some(std_frame(
            0x423,
            [0x7, 0x1D, 0x00, 0x02, 0x5d, 0x80, 0x5d, 200],
        ));
        assert_eq!(f, expected_frame);

        let f = request_frame(ChargingState::Charging, &None);
        assert!(f.is_some());
        assert_eq!(f, transitition_frame);
    }

    // Transition to charging test
    {
        let f = request_frame(ChargingState::Discharing, &None);
        assert!(f.is_some());
        assert_eq!(f, transitition_frame);

        // Transition to charging test
        let f = request_frame(ChargingState::Discharing, &Some(LbcKey::X5d));
        assert!(f.is_some());
        assert_eq!(f, idle_frame);

        // Transition to charging test
        let f = request_frame(ChargingState::Discharing, &Some(LbcKey::X5d));
        assert!(f.is_some());
        assert_eq!(f, idle_frame);
    }

    // Driving (normal mode) test
    {
        let f = request_frame(ChargingState::Driving, &Some(LbcKey::Xb2));
        assert!(f.is_some());
        let expected_frame = Some(std_frame(
            0x423,
            [0x0B, 0x1D, 0x00, 0x02, 0xb2, 0x80, 0xb2, 200],
        ));
        assert_eq!(f, expected_frame);

        let f = request_frame(ChargingState::Driving, &Some(LbcKey::X5d));
        assert!(f.is_some());
        let expected_frame = Some(std_frame(
            0x423,
            [0x0B, 0x1D, 0x00, 0x02, 0x5D, 0x80, 0x5D, 200],
        ));
        assert_eq!(f, expected_frame);
        // Transition to charging test
        let f = request_frame(ChargingState::Driving, &None);
        assert!(f.is_some());
        assert_eq!(f, transitition_frame);
    }
}

#[test]
fn test_kangoo_rapid_can_data() {
    let mut data = Data::new();
    let mut config = BmsConfig::default();
    config.set_discharge_limts(0, 350).unwrap();
    let mut bms = Bms::new(config);

    let r1 = data.rapid_data_processor(std_frame(
        0x155,
        [0x2E, 0x47, 0xCB, 0x54, 0x67, 0x00, 0x02, 0xD9],
    ));
    assert!(r1.is_ok());
    let r2 = data.rapid_data_processor(std_frame(
        0x424,
        [0x11, 0x40, 0x56, 0x84, 0x39, 0x6C, 0xF8, 0x3C],
    ));
    assert!(r2.is_ok());
    let r3 = data.rapid_data_processor(std_frame(
        0x425,
        [0x24, 0xDC, 0x44, 0x9C, 0x42, 0x2E, 0xE1, 0x15],
    ));
    assert!(r3.is_ok());

    let r4 = data.rapid_data_processor(std_frame(
        0x4ae,
        [0x24, 0xDC, 0x44, 0x9C, 0x42, 0x2E, 0xE1, 0x15],
    ));
    assert!(r4.is_ok());
    assert!(r4.unwrap()); // check update mode
    assert_eq!(data.soc_value, 65);
    assert_eq!(data.max_charge_amps, 46);
    assert_eq!(data.current_value, -125); // centiamps: -1.25 A
    assert_eq!(data.kwh_remaining, 2200); // centi-kWh: 22.0 kWh
    assert_eq!(data.pack_volts, 0);
    assert_eq!(data.pack_temp, 170); // deci-degrees: 17.0 C
    assert!(data.mode == BMSStatus::BMSReady);

    // test bms update
    assert!(bms.set_valid(false).is_ok());
    assert!(bms.set_current(data.current_value).is_ok());
    assert!(bms.set_soc(data.soc_value * 10).is_ok());
    assert!(bms.set_kwh(data.kwh_remaining).is_ok());
    assert!(bms.set_max_charge_amps(data.max_charge_amps * 10).is_ok());
    assert!(bms.set_pack_temp(data.pack_temp).is_ok());
    assert!(bms.set_valid(true).is_ok());

    let rframe = Some(std_frame(0x79b, [0x30, 0x01, 0x64, 0x00, 0x00, 0x00, 0x00, 0x00]));
    let temp_request_frame = Some(std_frame(0x79b, [2, 33, 4, 0, 0, 0, 0, 0]));
    let bal_request_frame = Some(std_frame(0x79b, [2, 33, 7, 0, 0, 0, 0, 0]));
    let cellbank2_request = Some(std_frame(
        0x79b,
        [0x02, 0x21, 0x42, 0x00, 0x00, 0x00, 0x00, 0x00],
    ));

    let x7bb = |payload: &[u8; 8]| std_frame(0x7bb, *payload);

    for payload in CELL1DATA.iter() {
        let r = data.diag_data_processor(x7bb(payload));
        if payload != CELL1DATA.last().unwrap() {
            assert_eq!(rframe, r.unwrap());
        } else {
            assert_eq!(cellbank2_request, r.unwrap());
        }

        assert_eq!(data.req_mode, RequestMode::CellBank1)
    }

    for payload in CELL2DATA.iter() {
        let r = data.diag_data_processor(x7bb(payload));
        if payload != CELL2DATA.last().unwrap() {
            assert_eq!(rframe, r.unwrap());
        } else {
            assert_eq!(bal_request_frame, r.unwrap())
        }
        assert_eq!(data.req_mode, RequestMode::CellBank2)
    }
    assert_eq!(data.pack_volts, 36377); // centivolts: 363.77 V
    assert_eq!(*data.cell_mv.minimum(), 3771);
    assert_eq!(*data.cell_mv.maximum(), 3797);

    [(BALDATA8, 4), (BALDATA96, 52)]
        .into_iter()
        .for_each(|(baldata, bal)| {
            for payload in baldata.iter() {
                let r = data.diag_data_processor(x7bb(payload)).unwrap();
                if payload != baldata.last().unwrap() {
                    assert_eq!(r, rframe)
                } else {
                    assert_eq!(r, temp_request_frame)
                }
                assert_eq!(data.req_mode, RequestMode::Balance)
            }
            assert_eq!(bal, data.get_balance_cells());
        });

    for payload in TEMPDATA.iter() {
        let r = data.diag_data_processor(x7bb(payload));
        if payload != TEMPDATA.last().unwrap() {
            assert_eq!(rframe, r.unwrap());
        } else {
            assert_eq!(None, r.unwrap());
        }
        assert_eq!(data.req_mode, RequestMode::Temperature)
    }
    assert_eq!(
        [16, 16, 17, 17, 17, 17, 17, 18, 18, 17, 17, 17, 20, 20],
        data.temps
    );
    assert_eq!(16, *data.temp.minimum());
    assert_eq!(20, *data.temp.maximum());

    assert!(bms.set_valid(false).is_ok());
    assert!(!bms.valid);
    assert!(bms.set_valid(true).is_ok());
    assert!(bms.valid);
    assert!(bms.set_pack_volts(data.pack_volts).is_ok());
    assert_eq!(bms.pack_volts, 36377);
    assert!(bms.set_cell_mv(data.cells_mv).is_ok());
    assert!(bms
        .set_temps(*data.temp.minimum() * 10, *data.temp.maximum() * 10)
        .is_ok());
    assert!(bms.set_max_discharge_amps(350).is_ok());
    assert!(bms.throttle_pack().is_ok());
    assert_eq!(bms.soc, 650);
    assert_eq!(bms.pack_volts, 36377);
    assert_eq!(*bms.cell_range_mv.minimum(), 3771);
    assert_eq!(*bms.cell_range_mv.maximum(), 3797);
    assert_eq!(bms.charge_max, 460); // deciamps: 46.0 A
    assert_eq!(bms.current, -125);
    assert_eq!(bms.kwh_remaining, 2200);
    assert_eq!(bms.temp, 170);
}

#[test]
fn ze40_out_of_sequence_resets_without_commit() {
    let mut data = Data::new();
    // Open a cell-bank-1 response, then break the sequence counter.
    let first = std_frame(0x7bb, CELL1DATA[0]);
    assert!(data.diag_data_processor(first).is_ok());
    let cells_before = data.cells_mv;
    let wrong_seq = std_frame(0x7bb, [0x23, 0, 0, 0, 0, 0, 0, 0]);
    let r = data.diag_data_processor(wrong_seq);
    assert!(r.is_err());
    // No partial data was committed and the response was dropped.
    assert_eq!(cells_before, data.cells_mv);
    assert!(!data.open_group);
    assert_eq!(data.pack_volts, 0);
}

#[test]
fn ze40_unknown_id_is_rejected_unchanged() {
    let mut data = Data::new();
    let before_soc = data.soc_value;
    let r = data.rapid_data_processor(std_frame(0x123, [0; 8]));
    assert!(r.is_err());
    assert_eq!(before_soc, data.soc_value);
}
