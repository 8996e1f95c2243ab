//! Dataref mappings of the plugin configuration and their defaults, which
//! target stock X-Plane aircraft.
//!
//! The configuration file itself is TOML, read and written by the host; the
//! trim wheel section, which holds floating-point settings, stays with it.

use vstd::prelude::*;
use crate::protocol::DeviceModel;

verus! {

/// Datarefs of the autopilot row (panel labels: HDG, NAV, APR, REV, ALT, VS,
/// IAS, AUTO PILOT).
#[derive(Debug, Clone)]
pub struct AutopilotConfig {
    pub hdg: String,
    pub nav: String,
    pub apr: String,
    pub rev: String,
    pub alt: String,
    pub vs: String,
    pub ias: String,
    pub ap: String,
}

/// Dataref of the landing-gear deploy ratios.
#[derive(Debug, Clone)]
pub struct LandingGearConfig {
    pub gear: String,
}

/// One dataref per annunciator LED, field names matching the panel silkscreen.
#[derive(Debug, Clone)]
pub struct AnnunciatorsConfig {
    pub master_warning: String,
    pub engine_fire: String,
    pub low_oil_pressure: String,
    pub low_fuel_pressure: String,
    pub anti_ice: String,
    pub starter_engaged: String,
    pub apu: String,
    pub master_caution: String,
    pub vacuum: String,
    pub low_hyd_pressure: String,
    pub aux_fuel_pump_left: String,
    pub aux_fuel_pump_right: String,
    pub low_volts: String,
}

/// Device selection, LED access and the system datarefs.
#[derive(Debug, Clone)]
pub struct SystemConfig {
    /// The exact Honeycomb USB device.
    pub device_model: DeviceModel,
    /// When false, the device is not opened over HID at all.
    pub leds_enabled: bool,
    pub bus_voltage: String,
    pub parking_brake: String,
    pub canopy: String,
    pub doors: String,
    pub cabin_door: String,
}

/// LED HID access is on unless configured off.
pub fn default_leds_enabled() -> (enabled: bool)
    ensures
        enabled,
{
    true
}

/// Default autopilot datarefs.
pub fn default_autopilot() -> (c: AutopilotConfig)
    ensures
        c.hdg@ == "sim/cockpit2/autopilot/heading_mode"@,
        c.nav@ == "sim/cockpit2/autopilot/nav_status"@,
        c.apr@ == "sim/cockpit2/autopilot/approach_status"@,
        c.rev@ == "sim/cockpit2/autopilot/backcourse_status"@,
        c.alt@ == "sim/cockpit2/autopilot/altitude_hold_status"@,
        c.vs@ == "sim/cockpit2/autopilot/vvi_status"@,
        c.ias@ == "sim/cockpit2/autopilot/autothrottle_on"@,
        c.ap@ == "sim/cockpit2/autopilot/servos_on"@,
{
    AutopilotConfig {
        hdg: String::from_str("sim/cockpit2/autopilot/heading_mode"),
        nav: String::from_str("sim/cockpit2/autopilot/nav_status"),
        apr: String::from_str("sim/cockpit2/autopilot/approach_status"),
        rev: String::from_str("sim/cockpit2/autopilot/backcourse_status"),
        alt: String::from_str("sim/cockpit2/autopilot/altitude_hold_status"),
        vs: String::from_str("sim/cockpit2/autopilot/vvi_status"),
        ias: String::from_str("sim/cockpit2/autopilot/autothrottle_on"),
        ap: String::from_str("sim/cockpit2/autopilot/servos_on"),
    }
}

/// Default landing-gear dataref.
pub fn default_landing_gear() -> (c: LandingGearConfig)
    ensures
        c.gear@ == "sim/flightmodel2/gear/deploy_ratio"@,
{
    LandingGearConfig {
        gear: String::from_str("sim/flightmodel2/gear/deploy_ratio"),
    }
}

/// Default annunciator datarefs.
pub fn default_annunciators() -> (c: AnnunciatorsConfig)
    ensures
        c.master_warning@ == "sim/cockpit2/annunciators/master_warning"@,
        c.engine_fire@ == "sim/cockpit2/annunciators/engine_fires"@,
        c.low_oil_pressure@ == "sim/cockpit2/annunciators/oil_pressure_low"@,
        c.low_fuel_pressure@ == "sim/cockpit2/annunciators/fuel_pressure_low"@,
        c.anti_ice@ == "sim/cockpit2/annunciators/pitot_heat"@,
        c.starter_engaged@ == "sim/cockpit2/engine/actuators/starter_hit"@,
        c.apu@ == "sim/cockpit2/electrical/APU_running"@,
        c.master_caution@ == "sim/cockpit2/annunciators/master_caution"@,
        c.vacuum@ == "sim/cockpit2/annunciators/low_vacuum"@,
        c.low_hyd_pressure@ == "sim/cockpit2/annunciators/hydraulic_pressure"@,
        c.aux_fuel_pump_left@ == "sim/cockpit2/fuel/transfer_pump_left"@,
        c.aux_fuel_pump_right@ == "sim/cockpit2/fuel/transfer_pump_right"@,
        c.low_volts@ == "sim/cockpit2/annunciators/low_voltage"@,
{
    AnnunciatorsConfig {
        master_warning: String::from_str("sim/cockpit2/annunciators/master_warning"),
        engine_fire: String::from_str("sim/cockpit2/annunciators/engine_fires"),
        low_oil_pressure: String::from_str("sim/cockpit2/annunciators/oil_pressure_low"),
        low_fuel_pressure: String::from_str("sim/cockpit2/annunciators/fuel_pressure_low"),
        anti_ice: String::from_str("sim/cockpit2/annunciators/pitot_heat"),
        starter_engaged: String::from_str("sim/cockpit2/engine/actuators/starter_hit"),
        apu: String::from_str("sim/cockpit2/electrical/APU_running"),
        master_caution: String::from_str("sim/cockpit2/annunciators/master_caution"),
        vacuum: String::from_str("sim/cockpit2/annunciators/low_vacuum"),
        low_hyd_pressure: String::from_str("sim/cockpit2/annunciators/hydraulic_pressure"),
        aux_fuel_pump_left: String::from_str("sim/cockpit2/fuel/transfer_pump_left"),
        aux_fuel_pump_right: String::from_str("sim/cockpit2/fuel/transfer_pump_right"),
        low_volts: String::from_str("sim/cockpit2/annunciators/low_voltage"),
    }
}

/// Default system settings: the Bravo, LEDs on, stock datarefs.
pub fn default_system() -> (c: SystemConfig)
    ensures
        c.device_model == DeviceModel::Bravo,
        c.leds_enabled,
        c.bus_voltage@ == "sim/cockpit2/electrical/bus_volts"@,
        c.parking_brake@ == "sim/cockpit2/controls/parking_brake_ratio"@,
        c.canopy@ == "sim/flightmodel2/misc/canopy_open_ratio"@,
        c.doors@ == "sim/flightmodel2/misc/door_open_ratio"@,
        c.cabin_door@ == "sim/cockpit2/annunciators/cabin_door_open"@,
{
    SystemConfig {
        device_model: DeviceModel::default(),
        leds_enabled: default_leds_enabled(),
        bus_voltage: String::from_str("sim/cockpit2/electrical/bus_volts"),
        parking_brake: String::from_str("sim/cockpit2/controls/parking_brake_ratio"),
        canopy: String::from_str("sim/flightmodel2/misc/canopy_open_ratio"),
        doors: String::from_str("sim/flightmodel2/misc/door_open_ratio"),
        cabin_door: String::from_str("sim/cockpit2/annunciators/cabin_door_open"),
    }
}

} // verus!
