//! Operations of the device.

pub mod draw;
