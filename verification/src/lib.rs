//! Resource-dependency graph and frame scheduling for an explicit, Vulkan-style GPU API.
//!
//! Client code describes a frame as passes which access nodes of a
//! [`graph::render_graph::RenderGraph`]. Resolving the graph yields a
//! [`graph::resolver::Resolver`], which keeps the passes in order, places the barriers between
//! them and records them into command buffers. The [`pool::HashPool`] lends out pooled device
//! objects and takes them back, and the [`display::Display`] schedules the recording and
//! submission of one resolved graph for each image of the swapchain.
//!
//! Device objects are named by plain handles. Nothing in this crate talks to a device: every
//! device call is an action which the caller performs and reports back.
//!
//! Around this core stand the descriptions of device objects ([`driver`]), of the pipelines
//! of the engine ([`gpu`]), the packing of models ([`bake`]) and the state of the mouse
//! ([`input`]).

pub mod access;
pub mod bake;
pub mod display;
pub mod driver;
pub mod error;
pub mod gpu;
pub mod graph;
pub mod input;
pub mod pool;
