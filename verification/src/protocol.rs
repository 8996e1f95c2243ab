//! Honeycomb device selection and LED report encoding.

use vstd::prelude::*;

verus! {

/// Size of the LED feature report sent to the device.
pub const REPORT_LEN: usize = 64;

/// The Honeycomb throttle quadrant model that receives LED reports.
#[derive(Debug, Clone, Copy, PartialEq, Eq, Structural)]
pub enum DeviceModel {
    Bravo,
    BravoLite,
}

impl Default for DeviceModel {
    /// The Bravo (not the Lite), for configurations that predate the model choice.
    fn default() -> (m: Self)
        ensures
            m == DeviceModel::Bravo,
    {
        DeviceModel::Bravo
    }
}

/// Byte `i` of the report that `model` sends for the four LED bank bytes `banks`.
///
/// The Bravo report carries the four banks unchanged at its start. The Bravo
/// Lite report is numbered: its ID byte leads, and the only LEDs it has, the six
/// dual-colour landing-gear ones, come from the low six bits of bank 1.
pub open spec fn report_byte(model: DeviceModel, banks: Seq<u8>, i: int) -> u8 {
    match model {
        DeviceModel::Bravo => if 0 <= i < 4 { banks[i] } else { 0 },
        DeviceModel::BravoLite => if i == 0 {
            0x65
        } else if i == 2 {
            banks[1] & 0x3f
        } else {
            0
        },
    }
}

/// USB vendor ID of Honeycomb.
pub const HONEYCOMB_VENDOR_ID: i32 = 0x294B;

/// HID usage page of the joystick top-level collection (Generic Desktop).
pub const USAGE_PAGE_GENERIC_DESKTOP: i32 = 0x01;

/// HID usage of the joystick top-level collection (Joystick).
pub const USAGE_JOYSTICK: i32 = 0x04;

/// The properties a HID device must have to receive LED reports: the
/// Honeycomb vendor, the model's product, and the joystick top-level
/// collection, so that no other Honeycomb device or HID collection on the bus
/// is picked up by mistake.
#[derive(Debug, Clone, Copy, PartialEq, Eq, Structural)]
pub struct DeviceMatch {
    pub vendor_id: i32,
    pub product_id: i32,
    pub usage_page: i32,
    pub usage: i32,
}

impl DeviceModel {
    /// The HID matching criteria of the model's device.
    pub fn device_match(self) -> (m: DeviceMatch)
        ensures
            m == (DeviceMatch {
                vendor_id: HONEYCOMB_VENDOR_ID,
                product_id: match self {
                    DeviceModel::Bravo => 0x1901i32,
                    DeviceModel::BravoLite => 0x1909i32,
                },
                usage_page: USAGE_PAGE_GENERIC_DESKTOP,
                usage: USAGE_JOYSTICK,
            }),
    {
        DeviceMatch {
            vendor_id: HONEYCOMB_VENDOR_ID,
            product_id: self.product_id(),
            usage_page: USAGE_PAGE_GENERIC_DESKTOP,
            usage: USAGE_JOYSTICK,
        }
    }

    /// USB product ID of the model.
    pub fn product_id(self) -> (id: i32)
        ensures
            id == (match self {
                DeviceModel::Bravo => 0x1901i32,
                DeviceModel::BravoLite => 0x1909i32,
            }),
    {
        match self {
            DeviceModel::Bravo => 0x1901,
            DeviceModel::BravoLite => 0x1909,
        }
    }

    /// Name of the model as written in the configuration file.
    pub fn name(self) -> (n: &'static str)
        ensures
            n@ == (match self {
                DeviceModel::Bravo => "bravo"@,
                DeviceModel::BravoLite => "bravo_lite"@,
            }),
    {
        match self {
            DeviceModel::Bravo => "bravo",
            DeviceModel::BravoLite => "bravo_lite",
        }
    }

    /// HID report ID of the LED report: the Bravo uses an unnumbered report.
    pub fn report_id(self) -> (id: u8)
        ensures
            id == (match self {
                DeviceModel::Bravo => 0u8,
                DeviceModel::BravoLite => 0x65u8,
            }),
    {
        match self {
            DeviceModel::Bravo => 0,
            DeviceModel::BravoLite => 0x65,
        }
    }

    /// The LED feature report for the bank bytes `banks`.
    ///
    /// IOKit takes unnumbered Bravo reports without an ID byte; numbered Bravo
    /// Lite reports keep their ID byte.
    pub fn encode(self, banks: [u8; 4]) -> (report: [u8; REPORT_LEN])
        ensures
            report@.len() == REPORT_LEN,
            forall|i: int| 0 <= i < REPORT_LEN ==> report[i] == report_byte(self, banks@, i),
    {
        let mut report = [0u8; REPORT_LEN];
        match self {
            DeviceModel::Bravo => {
                report[0] = banks[0];
                report[1] = banks[1];
                report[2] = banks[2];
                report[3] = banks[3];
            },
            DeviceModel::BravoLite => {
                report[0] = self.report_id();
                report[2] = banks[1] & 0x3f;
            },
        }
        report
    }
}

/// A Bravo Lite report carries only the six gear bits of bank 1: reports for
/// bank snapshots that agree on those bits are identical.
pub proof fn lemma_lite_report_only_gear_bits(a: Seq<u8>, b: Seq<u8>, i: int)
    requires
        a[1] & 0x3f == b[1] & 0x3f,
    ensures
        report_byte(DeviceModel::BravoLite, a, i) == report_byte(DeviceModel::BravoLite, b, i),
{
}

/// A Bravo report starts with the four bank bytes, unchanged, and is zero after them.
pub proof fn lemma_bravo_report_carries_banks(banks: Seq<u8>, i: int)
    requires
        0 <= i < REPORT_LEN,
    ensures
        report_byte(DeviceModel::Bravo, banks, i) == (if i < 4 { banks[i] } else { 0 }),
{
}

} // verus!
