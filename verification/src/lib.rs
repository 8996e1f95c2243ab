//! Verified core of the Honeycomb Bravo throttle-quadrant plugin for X-Plane 12:
//! LED report encoding, the LED panel model, the LED decision logic, the HID
//! link backoff state machine, rotary-encoder / reverser command logic and the
//! default dataref configuration.

pub mod protocol;
pub mod hid;
pub mod datarefs;
pub mod leds;
pub mod commands;
pub mod config;
