//! Drawing on the device.

pub mod def;
pub mod op;
