//! Drawing meshes.

pub mod instruction;
