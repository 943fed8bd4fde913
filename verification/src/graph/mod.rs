//! The logical render graph and what is made of it.

pub mod binding;
pub mod edge;
pub mod pass;
pub mod render_graph;
pub mod resolver;
pub mod typed;
