//! The instructions which a draw is compiled into.

use vstd::prelude::*;

verus! {

/// Draws a range of the indices of a mesh.
pub struct MeshDrawInstruction<'a> {
    /// The first index.
    pub base: u32,
    /// The number of indices.
    pub count: u32,
    /// The bytes of the transform of the mesh.
    pub transform: &'a [u8],
}

/// Commands specified by the client become instructions.
pub enum Instruction<'a> {
    Mesh(MeshInstruction<'a>),
    Stop,
}

/// The instructions which draw meshes.
pub enum MeshInstruction<'i> {
    BindDescriptorSet(usize),
    Draw(MeshDrawInstruction<'i>),
}

impl<'a> Instruction<'a> {
    /// Whether this instruction draws or binds for a mesh.
    pub fn is_mesh(&self) -> (mesh: bool)
        ensures
            mesh == (self is Mesh),
    {
        match self {
            Instruction::Mesh(_) => true,
            Instruction::Stop => false,
        }
    }

    /// Whether this instruction ends the draw.
    pub fn is_stop(&self) -> (stop: bool)
        ensures
            stop == (self is Stop),
    {
        match self {
            Instruction::Mesh(_) => false,
            Instruction::Stop => true,
        }
    }
}

} // verus!
