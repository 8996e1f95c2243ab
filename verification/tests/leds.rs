use honeycomb_bravo::protocol::DeviceModel;
use honeycomb_bravo::datarefs::{array_has_true, get_ap_state, int_to_bool};
use honeycomb_bravo::hid::BravoDevice;
use honeycomb_bravo::leds::{
    any_door_open, handle_led_changes, lit_led_names, GearPosition, LedInputs, LedLogState,
};

fn quiet_inputs() -> LedInputs {
    LedInputs {
        powered: true,
        hdg: Some(0),
        nav: Some(0),
        apr: Some(0),
        rev: Some(0),
        alt: Some(0),
        vs: Some(0),
        ias: Some(0),
        ap: Some(0),
        gear: Some(vec![GearPosition::Stowed; 3]),
        master_warning: Some(0),
        engine_fire: Some(vec![0, 0]),
        low_oil_pressure: Some(vec![0, 0]),
        low_fuel_pressure: Some(vec![0, 0]),
        anti_ice: Some(0),
        starter_engaged: Some(vec![0, 0]),
        apu: Some(0),
        master_caution: Some(0),
        vacuum: Some(0),
        low_hyd_pressure: Some(0),
        aux_fuel_pump_left: Some(0),
        aux_fuel_pump_right: Some(0),
        parking_brake: Some(false),
        low_volts: Some(0),
        canopy_open: Some(false),
        doors_open: Some(vec![false; 10]),
        cabin_door: Some(0),
    }
}

fn missing_inputs() -> LedInputs {
    LedInputs {
        powered: true,
        hdg: None,
        nav: None,
        apr: None,
        rev: None,
        alt: None,
        vs: None,
        ias: None,
        ap: None,
        gear: None,
        master_warning: None,
        engine_fire: None,
        low_oil_pressure: None,
        low_fuel_pressure: None,
        anti_ice: None,
        starter_engaged: None,
        apu: None,
        master_caution: None,
        vacuum: None,
        low_hyd_pressure: None,
        aux_fuel_pump_left: None,
        aux_fuel_pump_right: None,
        parking_brake: None,
        low_volts: None,
        canopy_open: None,
        doors_open: None,
        cabin_door: None,
    }
}

#[test]
fn bool_coercions() {
    assert!(!get_ap_state(0));
    assert!(get_ap_state(1));
    assert!(get_ap_state(2));
    assert!(!get_ap_state(-1));
    assert!(array_has_true(&[0, 2, 1]));
    assert!(!array_has_true(&[0, 2, 3]));
    assert!(!array_has_true(&[]));
    assert!(int_to_bool(-3));
    assert!(!int_to_bool(0));
}

#[test]
fn readme_led_change_example_names() {
    assert_eq!(
        lit_led_names(&[0x81, 0x15, 0x40, 0x02]),
        "HDG+AP+L_GREEN+N_GREEN+R_GREEN+VACUUM+PARKING_BRAKE"
    );
    assert_eq!(lit_led_names(&[0, 0, 0, 0]), "(none)");
    assert_eq!(lit_led_names(&[0, 0, 0, 0xf8]), "DOOR");
}

#[test]
fn readme_example_state_from_datarefs() {
    let mut d = quiet_inputs();
    d.ap = Some(1);
    d.hdg = Some(1);
    d.gear = Some(vec![GearPosition::Deployed; 3]);
    d.vacuum = Some(1);
    d.parking_brake = Some(true);
    let mut device = BravoDevice::new(DeviceModel::Bravo, true, 0);
    let mut log = LedLogState::new();
    let update = handle_led_changes(&mut device, &mut log, &d, 0);
    assert_eq!(device.banks(), [0x81, 0x15, 0x40, 0x02]);
    assert!(update.state_changed);
    assert_eq!(update.report.map(|r| r[..4].to_vec()), Some(vec![0x81, 0x15, 0x40, 0x02]));
    // Same state again: not reported again.
    let update = handle_led_changes(&mut device, &mut log, &d, 1);
    assert!(!update.state_changed);
}

#[test]
fn unpowered_panel_goes_dark() {
    let mut d = quiet_inputs();
    d.ap = Some(1);
    d.master_warning = Some(1);
    let mut device = BravoDevice::new(DeviceModel::Bravo, true, 0);
    let mut log = LedLogState::new();
    handle_led_changes(&mut device, &mut log, &d, 0);
    assert_ne!(device.banks(), [0; 4]);
    d.powered = false;
    let update = handle_led_changes(&mut device, &mut log, &d, 1);
    assert_eq!(device.banks(), [0; 4]);
    assert!(update.state_changed);
}

#[test]
fn alt_lamp_only_when_captured() {
    let mut device = BravoDevice::new(DeviceModel::Bravo, true, 0);
    let mut log = LedLogState::new();
    let mut d = quiet_inputs();
    d.alt = Some(1);
    handle_led_changes(&mut device, &mut log, &d, 0);
    assert_eq!(device.banks()[0] & 0x10, 0);
    d.alt = Some(2);
    handle_led_changes(&mut device, &mut log, &d, 0);
    assert_eq!(device.banks()[0] & 0x10, 0x10);
    d.vs = Some(1);
    handle_led_changes(&mut device, &mut log, &d, 0);
    assert_eq!(device.banks()[0] & 0x20, 0x20);
}

#[test]
fn gear_green_red_or_dark() {
    let mut device = BravoDevice::new(DeviceModel::Bravo, true, 0);
    let mut log = LedLogState::new();
    let mut d = quiet_inputs();
    // nose down, left moving, right up
    d.gear = Some(vec![
        GearPosition::Deployed,
        GearPosition::InTransit,
        GearPosition::Stowed,
    ]);
    handle_led_changes(&mut device, &mut log, &d, 0);
    // N_GREEN = bit 2, L_RED = bit 1
    assert_eq!(device.banks()[1] & 0x3f, 0x06);
    // Fewer than three legs: the strip keeps its state.
    d.gear = Some(vec![GearPosition::Stowed; 2]);
    handle_led_changes(&mut device, &mut log, &d, 0);
    assert_eq!(device.banks()[1] & 0x3f, 0x06);
}

#[test]
fn missing_datarefs_keep_lamps() {
    let mut device = BravoDevice::new(DeviceModel::Bravo, true, 0);
    let mut log = LedLogState::new();
    let mut d = quiet_inputs();
    d.hdg = Some(2);
    d.engine_fire = Some(vec![0, 1]);
    d.parking_brake = Some(true);
    handle_led_changes(&mut device, &mut log, &d, 0);
    assert_eq!(device.banks(), [0x01, 0x80, 0x00, 0x02]);
    let m = missing_inputs();
    handle_led_changes(&mut device, &mut log, &m, 0);
    // Aux fuel and door are always decided: both off here; the rest is kept.
    assert_eq!(device.banks(), [0x01, 0x80, 0x00, 0x02]);
}

#[test]
fn annunciators_follow_datarefs() {
    let mut device = BravoDevice::new(DeviceModel::Bravo, true, 0);
    let mut log = LedLogState::new();
    let mut d = quiet_inputs();
    d.low_oil_pressure = Some(vec![0, 1]);
    d.starter_engaged = Some(vec![1]);
    d.low_hyd_pressure = Some(1);
    d.aux_fuel_pump_right = Some(2);
    d.low_volts = Some(1);
    handle_led_changes(&mut device, &mut log, &d, 0);
    assert_eq!(device.banks(), [0x00, 0x00, 0x89, 0x05]);
    // A transfer pump in mode 1 is not "running".
    d.aux_fuel_pump_right = Some(1);
    handle_led_changes(&mut device, &mut log, &d, 0);
    assert_eq!(device.banks()[3] & 0x01, 0);
}

#[test]
fn door_lamp_sources() {
    let mut d = quiet_inputs();
    assert!(!any_door_open(&d));
    d.canopy_open = Some(true);
    assert!(any_door_open(&d));
    d.canopy_open = Some(false);
    let mut doors = vec![false; 12];
    doors[11] = true;
    d.doors_open = Some(doors.clone());
    // Only the first ten doors count.
    assert!(!any_door_open(&d));
    doors[9] = true;
    d.doors_open = Some(doors);
    assert!(any_door_open(&d));
    d.doors_open = None;
    d.cabin_door = Some(1);
    assert!(any_door_open(&d));
}
