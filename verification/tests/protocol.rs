use honeycomb_bravo::protocol::{DeviceModel, REPORT_LEN};

#[test]
fn model_ids_are_distinct_and_default_is_original() {
    assert_eq!(DeviceModel::default(), DeviceModel::Bravo);
    assert_eq!(DeviceModel::Bravo.product_id(), 0x1901);
    assert_eq!(DeviceModel::BravoLite.product_id(), 0x1909);
    assert_eq!(DeviceModel::Bravo.report_id(), 0);
    assert_eq!(DeviceModel::BravoLite.report_id(), 0x65);
}

#[test]
fn original_bravo_packets_are_unchanged() {
    for banks in [[0; 4], [0xff; 4], [0x81, 0x15, 0x40, 0x02]] {
        let mut expected = [0; REPORT_LEN];
        expected[..4].copy_from_slice(&banks);
        assert_eq!(DeviceModel::Bravo.encode(banks), expected);
    }
}

#[test]
fn lite_packets_contain_only_gear_bits() {
    for bits in 0u8..=255 {
        let mut expected = [0; REPORT_LEN];
        expected[0] = 0x65;
        expected[2] = bits & 0x3f;
        assert_eq!(
            DeviceModel::BravoLite.encode([0xff, bits, 0xff, 0xff]),
            expected
        );
    }
}

#[test]
fn lite_standard_gear_states_use_expected_bits() {
    for bits in [0x00, 0x15, 0x2a] {
        let report = DeviceModel::BravoLite.encode([0xff, bits, 0xff, 0xff]);
        assert_eq!(report.len(), REPORT_LEN);
        assert_eq!(report[0], 0x65);
        assert_eq!(report[2], bits);
        assert!(report[1..2].iter().chain(&report[3..]).all(|&b| b == 0));
    }
}

#[test]
fn lite_preserves_each_individual_gear_bit() {
    for bit in 0..6 {
        let bits = 1 << bit;
        let report = DeviceModel::BravoLite.encode([0, bits, 0, 0]);
        assert_eq!(report[2], bits);
    }
}

#[test]
fn model_names_match_config_spelling() {
    assert_eq!(DeviceModel::Bravo.name(), "bravo");
    assert_eq!(DeviceModel::BravoLite.name(), "bravo_lite");
}

#[test]
fn lite_report_ignores_banks_other_than_gear() {
    let a = DeviceModel::BravoLite.encode([0x12, 0xc5, 0x34, 0x56]);
    let b = DeviceModel::BravoLite.encode([0x00, 0x05, 0x00, 0x00]);
    assert_eq!(a, b);
    assert_eq!(a[2], 0x05);
}

#[test]
fn device_match_pins_vendor_product_and_joystick_collection() {
    let bravo = DeviceModel::Bravo.device_match();
    assert_eq!(bravo.vendor_id, 0x294B);
    assert_eq!(bravo.product_id, 0x1901);
    assert_eq!(bravo.usage_page, 0x01);
    assert_eq!(bravo.usage, 0x04);
    assert_eq!(DeviceModel::BravoLite.device_match().product_id, 0x1909);
}
