//! Baking assets into the buffers which the device reads.

pub mod model;
