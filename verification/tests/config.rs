use honeycomb_bravo::config::{
    default_annunciators, default_autopilot, default_landing_gear, default_leds_enabled,
    default_system,
};
use honeycomb_bravo::protocol::DeviceModel;

#[test]
fn defaults_target_stock_aircraft() {
    let ap = default_autopilot();
    assert_eq!(ap.hdg, "sim/cockpit2/autopilot/heading_mode");
    assert_eq!(ap.ap, "sim/cockpit2/autopilot/servos_on");
    assert_eq!(default_landing_gear().gear, "sim/flightmodel2/gear/deploy_ratio");
    let an = default_annunciators();
    assert_eq!(an.anti_ice, "sim/cockpit2/annunciators/pitot_heat");
    assert_eq!(an.low_volts, "sim/cockpit2/annunciators/low_voltage");
    let sys = default_system();
    assert_eq!(sys.device_model, DeviceModel::Bravo);
    assert!(sys.leds_enabled);
    assert!(default_leds_enabled());
    assert_eq!(sys.parking_brake, "sim/cockpit2/controls/parking_brake_ratio");
}
