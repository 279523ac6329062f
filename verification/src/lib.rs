//! Calibration of absolute input axes: request codes, capability checks,
//! the get/set protocol and the normalisation of raw readings.

pub mod absinfo;
pub mod bitmask;
pub mod error;
pub mod events;
pub mod ioctl;
pub mod joystick;
pub mod laws;
pub mod store;
