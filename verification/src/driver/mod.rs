//! Descriptions of device objects.
//!
//! Values of the graphics API are held here by their raw codes and bits.

pub mod descriptor_set;
pub mod graphic_pipeline;
pub mod image;
