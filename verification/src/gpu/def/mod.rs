//! The pipelines which the engine draws with.

pub mod graphics;
