//! How a pass touches a resource.

use vstd::prelude::*;

verus! {

/// The ways in which a resource can be accessed by the device, the host or the presentation
/// engine. Each names one use of a buffer or an image at one place of the pipeline.
#[derive(Clone, Copy, Debug, PartialEq, Eq, Hash, Structural)]
pub enum AccessType {
    Nothing,
    CommandBufferReadNVX,
    IndirectBuffer,
    IndexBuffer,
    VertexBuffer,
    VertexShaderReadUniformBuffer,
    VertexShaderReadSampledImageOrUniformTexelBuffer,
    VertexShaderReadOther,
    TessellationControlShaderReadUniformBuffer,
    TessellationControlShaderReadSampledImageOrUniformTexelBuffer,
    TessellationControlShaderReadOther,
    TessellationEvaluationShaderReadUniformBuffer,
    TessellationEvaluationShaderReadSampledImageOrUniformTexelBuffer,
    TessellationEvaluationShaderReadOther,
    GeometryShaderReadUniformBuffer,
    GeometryShaderReadSampledImageOrUniformTexelBuffer,
    GeometryShaderReadOther,
    FragmentShaderReadUniformBuffer,
    FragmentShaderReadSampledImageOrUniformTexelBuffer,
    FragmentShaderReadColorInputAttachment,
    FragmentShaderReadDepthStencilInputAttachment,
    FragmentShaderReadOther,
    ColorAttachmentRead,
    DepthStencilAttachmentRead,
    ComputeShaderReadUniformBuffer,
    ComputeShaderReadSampledImageOrUniformTexelBuffer,
    ComputeShaderReadOther,
    AnyShaderReadUniformBuffer,
    AnyShaderReadUniformBufferOrVertexBuffer,
    AnyShaderReadSampledImageOrUniformTexelBuffer,
    AnyShaderReadOther,
    TransferRead,
    HostRead,
    Present,
    CommandBufferWriteNVX,
    VertexShaderWrite,
    TessellationControlShaderWrite,
    TessellationEvaluationShaderWrite,
    GeometryShaderWrite,
    FragmentShaderWrite,
    ColorAttachmentWrite,
    DepthStencilAttachmentWrite,
    DepthAttachmentWriteStencilReadOnly,
    StencilAttachmentWriteDepthReadOnly,
    ComputeShaderWrite,
    AnyShaderWrite,
    TransferWrite,
    HostWrite,
    ColorAttachmentReadWrite,
    General,
}

/// A mask of pipeline stages, one bit for each stage.
#[derive(Clone, Copy, Debug, PartialEq, Eq, Hash, Structural)]
pub struct PipelineStageFlags {
    pub bits: u32,
}

impl PipelineStageFlags {
    /// The mask without any stage.
    pub fn empty() -> (flags: PipelineStageFlags)
        ensures
            flags.bits == 0,
    {
        PipelineStageFlags { bits: 0 }
    }

    /// The mask with the given bits.
    pub fn from_raw(bits: u32) -> (flags: PipelineStageFlags)
        ensures
            flags.bits == bits,
    {
        PipelineStageFlags { bits }
    }

    /// The bits of this mask.
    pub fn as_raw(self) -> (bits: u32)
        ensures
            bits == self.bits,
    {
        self.bits
    }

    /// Whether this mask holds no stage.
    pub fn is_empty(self) -> (empty: bool)
        ensures
            empty == (self.bits == 0),
    {
        self.bits == 0
    }
}

/// One access of a resource: what is done with it, and the pipeline stages at which that
/// happens.
#[derive(Clone, Copy, Debug, PartialEq, Eq, Hash, Structural)]
pub struct Access {
    pub ty: AccessType,
    pub stage: PipelineStageFlags,
}

impl Access {
    /// An access of the given type at the given stages.
    pub fn new(ty: AccessType, stage: PipelineStageFlags) -> (access: Access)
        ensures
            access.ty == ty,
            access.stage == stage,
    {
        Access { ty, stage }
    }

    /// The state of a resource which nothing has touched yet: no access, at no stage.
    pub open spec fn nothing_spec() -> Access {
        Access { ty: AccessType::Nothing, stage: PipelineStageFlags { bits: 0 } }
    }

    /// The state of a resource which nothing has touched yet.
    pub fn nothing() -> (access: Access)
        ensures
            access == Access::nothing_spec(),
    {
        Access { ty: AccessType::Nothing, stage: PipelineStageFlags { bits: 0 } }
    }

    /// Whether a barrier has to stand between an access `self` and a following access `next`
    /// of the same resource.
    pub open spec fn needs_barrier(self, next: Access) -> bool {
        self.ty != next.ty
    }

    /// Decides whether a barrier has to stand between this access and the next one: it has
    /// to wherever the type of access changes.
    pub fn requires_barrier(self, next: Access) -> (needed: bool)
        ensures
            needed == self.needs_barrier(next),
    {
        self.ty != next.ty
    }
}

} // verus!
