//! The fused state store, the safety envelope, and the contactor
//! state machine, on concrete scenarios.

use bms_gateway::bms::{compute_limits, Bms, BmsConfig, BmsError};
use bms_gateway::contactor::{Contactor, ContactorState, DebouncedSignal, DriveAction};
use bms_gateway::frame::{CanFrame, FrameId};
use bms_gateway::gateway::{
    commit_diag_reading, commit_rapid_reading, next_preamble_key, InverterLink, InverterOutcome,
    LbcTracker,
};
use bms_gateway::minmax::MinMax;
use bms_gateway::store::FusedState;
use bms_gateway::ze40::{Data, LbcKey};

#[test]
fn store_update_commits_whole_reading() {
    // A completed update is visible in one piece: every field from the
    // same cycle, the valid flag raised, the envelope recomputed.
    let mut store = FusedState::new(BmsConfig::default());
    assert!(!store.snapshot().valid);
    let r = store.update(
        |mut b: Bms| -> Result<Bms, BmsError> {
            b.set_current(-125)?;
            b.set_soc(650)?;
            b.set_kwh(2200)?;
            b.set_pack_temp(170)?;
            b.set_max_charge_amps(460)?;
            b.set_max_discharge_amps(350)?;
            Ok(b)
        },
        1000,
    );
    assert!(r.is_ok());
    let snap = store.snapshot();
    assert!(snap.valid);
    assert_eq!(snap.current, -125);
    assert_eq!(snap.soc, 650);
    assert_eq!(snap.kwh_remaining, 2200);
    assert_eq!(snap.charge_max, 460);
    assert_eq!(snap.discharge_max, 350);
}

#[test]
fn store_failed_update_commits_nothing() {
    // A failed update leaves the old telemetry with only the valid
    // flag lowered: no torn mix of old and new fields.
    let mut store = FusedState::new(BmsConfig::default());
    assert!(store
        .update(
            |mut b: Bms| -> Result<Bms, BmsError> {
                b.set_soc(500)?;
                Ok(b)
            },
            1000,
        )
        .is_ok());
    let before = store.snapshot();
    let r = store.update(
        |mut b: Bms| -> Result<Bms, BmsError> {
            b.set_soc(300)?;
            // Out of the configured sensor range: the whole update fails.
            b.set_current(2_000_000)?;
            Ok(b)
        },
        2000,
    );
    assert!(r.is_err());
    let after = store.snapshot();
    assert!(!after.valid);
    assert_eq!(after.soc, before.soc);
    assert_eq!(after.current, before.current);
    // The freshness timestamp still marks the last completed update.
    assert!(store.is_valid_and_fresh(2000, 10000) == false);
}

#[test]
fn staleness_is_monotonic() {
    // Once the timeout has passed with no update, is_valid_and_fresh
    // returns false whatever the valid flag holds, and stays false.
    let mut store = FusedState::new(BmsConfig::default());
    assert!(!store.is_valid_and_fresh(0, 10000)); // never updated
    assert!(store
        .update(|b: Bms| -> Result<Bms, BmsError> { Ok(b) }, 1000)
        .is_ok());
    assert!(store.snapshot().valid);
    assert!(store.is_valid_and_fresh(5000, 10000));
    assert!(store.is_valid_and_fresh(11000, 10000));
    assert!(!store.is_valid_and_fresh(11001, 10000));
    assert!(!store.is_valid_and_fresh(50000, 10000));
    assert!(!store.is_valid_and_fresh(u64::MAX, 10000));
}

#[test]
fn envelope_clamps_into_configured_range() {
    let config = BmsConfig::default();
    let mut bms = Bms::new(config);
    assert!(bms.set_max_charge_amps(1000).is_ok());
    assert!(bms.set_max_discharge_amps(1000).is_ok());
    assert!(bms.set_soc(650).is_ok());
    assert!(bms.set_temps(160, 200).is_ok());

    // Highest cell half way between the configured ceiling and the
    // absolute peak: the charge limit is derated to half.
    bms.cell_range_mv = MinMax { min: 4000, max: 4175 };
    let limits = compute_limits(&bms, &config);
    assert_eq!(limits.charge_max, 500);
    assert_eq!(limits.discharge_max, 1000);

    // At or above the peak the charge limit is zero.
    bms.cell_range_mv = MinMax { min: 4000, max: 4200 };
    let limits = compute_limits(&bms, &config);
    assert_eq!(limits.charge_max, 0);

    // Below the knee the limit passes through unchanged.
    bms.cell_range_mv = MinMax { min: 3700, max: 3800 };
    let limits = compute_limits(&bms, &config);
    assert_eq!(limits.charge_max, 1000);

    // State of charge at the depth-of-discharge floor: no discharge.
    bms.soc = 100;
    let limits = compute_limits(&bms, &config);
    assert_eq!(limits.discharge_max, 0);

    // Half way through the band above the floor: half the limit.
    bms.soc = 150;
    let limits = compute_limits(&bms, &config);
    assert_eq!(limits.discharge_max, 500);

    // A pack at the configured minimum temperature: no discharge.
    bms.soc = 650;
    bms.temps = MinMax { min: -200, max: 0 };
    let limits = compute_limits(&bms, &config);
    assert_eq!(limits.discharge_max, 0);

    // Whatever the state, the result stays inside the configured range.
    bms.soc = 1000;
    bms.temps = MinMax { min: 500, max: 500 };
    bms.charge_max = 65535;
    bms.discharge_max = 65535;
    let limits = compute_limits(&bms, &config);
    assert!(limits.charge_max <= *config.charge_current_limts().maximum());
    assert!(limits.discharge_max <= *config.discharge_current_limts().maximum());
}

#[test]
fn contactor_debounce_needs_two_good_readings() {
    // A single good result does not close; two consecutive ones do;
    // and good-then-bad never closes.
    let mut link = DebouncedSignal::new();
    assert!(!link.on_result(true));
    assert!(link.on_result(true));

    let mut link = DebouncedSignal::new();
    assert!(!link.on_result(true));
    assert!(!link.on_result(false));
    assert!(!link.on_result(true));
    assert!(link.on_result(true));
}

#[test]
fn contactor_opens_immediately_on_false() {
    let mut c = Contactor::new(false);
    assert_eq!(c.step(true), DriveAction::CloseMain);
    assert_eq!(c.state, ContactorState::Closed);
    // A repeated true signal is an idempotent no-op.
    assert_eq!(c.step(true), DriveAction::Idle);
    assert_eq!(c.state, ContactorState::Closed);
    // One false signal disconnects at once.
    assert_eq!(c.step(false), DriveAction::Disconnect);
    assert_eq!(c.state, ContactorState::Open);
}

#[test]
fn contactor_precharge_sequence() {
    let mut c = Contactor::new(true);
    assert_eq!(c.step(true), DriveAction::BeginPrecharge);
    assert_eq!(c.state, ContactorState::Precharge);
    // The signal dropping during precharge disconnects.
    assert_eq!(c.step(false), DriveAction::Disconnect);
    assert_eq!(c.state, ContactorState::Open);
    // With the signal held, the settle delay completes the close.
    assert_eq!(c.step(true), DriveAction::BeginPrecharge);
    assert_eq!(c.settle_elapsed(true), DriveAction::CloseMain);
    assert_eq!(c.state, ContactorState::Closed);
}

#[test]
fn stale_battery_opens_contactor_regardless_of_inverter() {
    // Decoder failure (record not fresh): the link signals the
    // contactor open within one cycle, whatever the inverter sent.
    let mut link = InverterLink::new();
    let bms = Bms::new(BmsConfig::default());
    let mut contactor = Contactor::new(false);
    // First, a healthy exchange closes the contactor after two cycles.
    let poll = CanFrame::new8(FrameId::Extended(0x1871), [1, 0, 1, 0, 0, 0, 0, 0]);
    let (_, s1) = link.poll(poll, &bms, true);
    contactor.step(s1.unwrap());
    let (_, s2) = link.poll(poll, &bms, true);
    contactor.step(s2.unwrap());
    assert_eq!(contactor.state, ContactorState::Closed);
    // Now the fused record goes stale: one cycle later the contactor
    // is open.
    let (outcome, s3) = link.poll(poll, &bms, false);
    assert!(matches!(outcome, InverterOutcome::Stale));
    assert_eq!(s3, Some(false));
    contactor.step(s3.unwrap());
    assert_eq!(contactor.state, ContactorState::Open);
}

#[test]
fn rapid_and_diag_commits_flow_into_store() {
    let mut store = FusedState::new(BmsConfig::default());
    let mut data = Data::new();
    data.soc_value = 65;
    data.max_charge_amps = 46;
    data.current_value = -125;
    data.kwh_remaining = 2200;
    data.pack_temp = 170;
    assert!(commit_rapid_reading(&mut store, &data, 500).is_ok());
    let snap = store.snapshot();
    assert!(snap.valid);
    assert_eq!(snap.soc, 650);
    assert_eq!(snap.current, -125);

    data.pack_volts = 36377;
    data.cells_mv = [3780; 96];
    data.cell_mv = MinMax { min: 3771, max: 3797 };
    data.temp = MinMax { min: 16, max: 20 };
    assert!(commit_diag_reading(&mut store, &data, 600).is_ok());
    let snap = store.snapshot();
    assert!(snap.valid);
    assert_eq!(snap.pack_volts, 36377);
    assert_eq!(snap.temps, MinMax { min: 160, max: 200 });
    assert!(store.is_valid_and_fresh(600, 10000));
}

#[test]
fn preamble_key_cadence_and_tracker() {
    // Five ticks with one key, four with the other, then a wrap.
    let mut counter: u8 = 0;
    let mut seen = Vec::new();
    for _ in 0..10 {
        seen.push(next_preamble_key(&mut counter));
    }
    for k in &seen[0..5] {
        assert_eq!(*k, Some(LbcKey::X5d));
    }
    for k in &seen[5..9] {
        assert_eq!(*k, Some(LbcKey::Xb2));
    }
    assert_eq!(seen[9], Some(LbcKey::Xb2));

    // Four consecutive marker bytes select a key.
    let mut tracker = LbcTracker::new();
    assert_eq!(tracker.on_key_byte(0xaa), None);
    assert_eq!(tracker.on_key_byte(0xaa), None);
    assert_eq!(tracker.on_key_byte(0xaa), None);
    assert_eq!(tracker.on_key_byte(0xaa), Some(LbcKey::X5d));
    // A run broken by the other marker starts over.
    assert_eq!(tracker.on_key_byte(0x55), None);
    assert_eq!(tracker.on_key_byte(0x55), None);
    assert_eq!(tracker.on_key_byte(0x55), None);
    assert_eq!(tracker.on_key_byte(0x55), Some(LbcKey::Xb2));
}

#[test]
fn config_update_keeps_previous_on_rejection() {
    // A malformed configuration update is rejected and the previous
    // bounds are retained unchanged; a sound one is adopted.
    let mut store = FusedState::new(BmsConfig::default());
    let r = store.update(
        |mut b: Bms| -> Result<Bms, BmsError> {
            b.config.set_discharge_limts(400, 100)?;
            Ok(b)
        },
        10,
    );
    assert!(r.is_err());
    assert_eq!(*store.snapshot().config.discharge_current_limts().maximum(), 2500);
    let r = store.update(
        |mut b: Bms| -> Result<Bms, BmsError> {
            b.config.set_discharge_limts(0, 400)?;
            Ok(b)
        },
        20,
    );
    assert!(r.is_ok());
    assert_eq!(*store.snapshot().config.discharge_current_limts().maximum(), 400);
}
