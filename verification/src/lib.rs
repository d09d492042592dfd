//! Decision logic of two polled sensors: a digital input on one GPIO line,
//! and a placeholder that reads nothing.
//!
//! Nothing here touches hardware. The host opens and reads the line and
//! reports what came of it; the library says which step comes next, what a
//! poll gives for a sample, and when each error is due.

pub mod config;
pub mod error;
pub mod gpio;
pub mod hw201;
pub mod laws;
pub mod null_sensor;
pub mod readings;
pub mod record;
pub mod registry;
pub mod status;
pub mod value;

pub use crate::gpio::Esp32GPIOPin;
pub use crate::hw201::{register_models, HW201Sensor};
