use honeycomb_bravo::protocol::DeviceModel;
use honeycomb_bravo::hid::connection::HidConnection;
use honeycomb_bravo::hid::{
    all_leds, configure, led_anc_door, led_anc_parking_brake, led_ap_autopilot, led_ap_hdg,
    led_ldg_l_green, BravoDevice, FORCE_REFRESH_INTERVAL_MS, LED_COUNT,
};

#[test]
fn set_led_reads_back_and_touches_one_bit() {
    let mut device = BravoDevice::new(DeviceModel::Bravo, true, 0);
    device.set_led(&led_ap_hdg(), true);
    device.set_led(&led_anc_door(), true);
    assert_eq!(device.banks(), [0x01, 0x00, 0x00, 0x08]);
    assert!(led_ap_hdg().is_lit(&device.banks()));
    assert!(!led_ap_autopilot().is_lit(&device.banks()));
    device.set_led(&led_ap_hdg(), false);
    assert_eq!(device.banks(), [0x00, 0x00, 0x00, 0x08]);
    device.all_leds_off();
    assert_eq!(device.banks(), [0; 4]);
}

#[test]
fn all_leds_cover_each_bit_once_in_reading_order() {
    let leds = all_leds();
    assert_eq!(leds.len(), LED_COUNT);
    for (i, led) in leds.iter().enumerate() {
        assert_eq!(led.bank * 8 + led.bit as usize, i);
    }
    assert_eq!(leds[0].name(), "HDG");
    assert_eq!(leds[7].name(), "AP");
    assert_eq!(leds[27].name(), "DOOR");
    assert_eq!(led_anc_parking_brake().bank, 3);
    assert_eq!(led_ldg_l_green().bit, 0);
}

#[test]
fn flush_sends_on_change_and_on_refresh_only() {
    let mut device = BravoDevice::new(DeviceModel::Bravo, true, 1000);
    // Nothing sent yet: the first flush writes.
    let report = device.flush(1000).expect("first flush writes");
    assert_eq!(report, [0u8; 64]);
    device.finish_flush(true, 1000);
    // Same bytes before the refresh deadline: nothing to do.
    assert_eq!(device.flush(1001), None);
    assert_eq!(device.flush(1000 + FORCE_REFRESH_INTERVAL_MS - 1), None);
    // Deadline reached: re-send.
    assert!(device.flush(1000 + FORCE_REFRESH_INTERVAL_MS).is_some());
    // A change is written at once, banks first.
    device.set_led(&led_ap_autopilot(), true);
    let report = device.flush(1002).expect("change is written");
    assert_eq!(report[0], 0x80);
    assert!(report[1..].iter().all(|&b| b == 0));
    // A failed write is retried.
    device.finish_flush(false, 1002);
    assert!(device.flush(1003).is_some());
}

#[test]
fn disabling_sends_all_off_then_stays_quiet() {
    let mut device = BravoDevice::new(DeviceModel::Bravo, true, 0);
    device.set_led(&led_ap_hdg(), true);
    device.finish_flush(true, 0);
    let report = device.set_leds_enabled(false, 10).expect("all-off report");
    assert_eq!(report, [0u8; 64]);
    device.finish_flush(true, 10);
    assert_eq!(device.banks(), [0; 4]);
    device.set_led(&led_ap_hdg(), true);
    assert_eq!(device.flush(100_000), None);
    // Disabling twice does nothing.
    assert_eq!(device.set_leds_enabled(false, 20), None);
    // Re-enabling forces a re-sync.
    assert_eq!(device.set_leds_enabled(true, 30), None);
    assert_eq!(device.flush(31).map(|r| r[0]), Some(0x01));
}

#[test]
fn configure_creates_once_then_updates_flag() {
    let mut device: Option<BravoDevice> = None;
    assert_eq!(configure(&mut device, DeviceModel::Bravo, false, 5), None);
    assert!(device.is_some());
    assert_eq!(device.as_ref().unwrap().flush(10_000), None);
    assert_eq!(configure(&mut device, DeviceModel::Bravo, true, 6), None);
    assert!(device.as_ref().unwrap().flush(7).is_some());
}

#[test]
fn five_failures_enter_backoff_reported_once() {
    let mut conn = HidConnection::new();
    for t in 0..4 {
        assert!(!conn.record_failure(t));
        assert!(!conn.in_backoff(t));
    }
    assert!(conn.record_failure(4));
    assert!(conn.in_backoff(5));
    assert!(conn.in_backoff(2003));
    assert!(!conn.in_backoff(2004));
    for t in 2004..2009 {
        assert!(!conn.record_failure(t));
    }
    assert!(conn.in_backoff(2010));
    assert!(conn.record_success());
    assert!(!conn.in_backoff(2010));
    assert!(!conn.record_success());
}

#[test]
fn device_lifecycle_reported_on_edges() {
    let mut conn = HidConnection::new();
    assert!(!conn.note_device_lost());
    assert!(conn.note_device_acquired());
    assert!(!conn.note_device_acquired());
    assert!(conn.note_device_lost());
    assert!(!conn.note_device_lost());
}

#[test]
fn lite_panel_flushes_lite_reports() {
    let mut device = BravoDevice::new(DeviceModel::BravoLite, true, 0);
    assert_eq!(device.model(), DeviceModel::BravoLite);
    device.set_led(&led_ap_hdg(), true);
    device.set_led(&led_ldg_l_green(), true);
    let report = device.flush(0).expect("first flush writes");
    let mut expected = [0u8; 64];
    expected[0] = 0x65;
    expected[2] = 0x01;
    assert_eq!(report, expected);
    device.finish_flush(true, 0);
    // Disabling writes the Lite all-off report: only the report ID is set.
    let off = device.set_leds_enabled(false, 1).expect("all-off report");
    let mut dark = [0u8; 64];
    dark[0] = 0x65;
    assert_eq!(off, dark);
}

#[test]
fn configure_keeps_model_of_first_setup() {
    let mut device: Option<BravoDevice> = None;
    configure(&mut device, DeviceModel::BravoLite, true, 0);
    configure(&mut device, DeviceModel::Bravo, false, 1);
    assert_eq!(device.as_ref().unwrap().model(), DeviceModel::BravoLite);
}
