//! Graphic pipelines and what they are described by.

use super::image::SampleCount;
use vstd::prelude::*;

verus! {

/// The code of the stencil operation which keeps the value.
pub const STENCIL_OP_KEEP: i32 = 0;

/// The code of the comparison which always passes.
pub const COMPARE_OP_ALWAYS: i32 = 7;

/// The code of the comparison which passes for what is greater or equal.
pub const COMPARE_OP_GREATER_OR_EQUAL: i32 = 6;

/// The code of the topology of a list of triangles.
pub const PRIMITIVE_TOPOLOGY_TRIANGLE_LIST: i32 = 3;

/// The code of the winding which counts as the front: counter-clockwise.
pub const FRONT_FACE_COUNTER_CLOCKWISE: i32 = 0;

/// The code of the polygon mode which fills.
pub const POLYGON_MODE_FILL: i32 = 0;

/// The cull mode which culls nothing.
pub const CULL_MODE_NONE: u32 = 0;

/// The cull mode which culls what faces away.
pub const CULL_MODE_BACK: u32 = 2;

/// The bits of the float 1.0.
pub const ONE_BITS: u32 = 0x3f80_0000;

/// What is done to the stencil value of one face, as the device takes it.
#[derive(Clone, Copy, Debug, Eq, PartialEq, Hash, Structural)]
pub struct StencilOpState {
    pub fail_op: i32,
    pub pass_op: i32,
    pub depth_fail_op: i32,
    pub compare_op: i32,
    pub compare_mask: u32,
    pub write_mask: u32,
    pub reference: u32,
}

/// The ways in which the stencil test can be used.
#[derive(Clone, Copy, Debug, Eq, PartialEq, Hash, Structural)]
pub enum StencilMode {
    /// The test always passes and the value is kept.
    Noop,
}

impl StencilMode {
    /// What the device is asked to do: for the mode which does nothing, to keep the value
    /// whatever the outcome and to pass always, with empty masks and no reference.
    pub fn into_vk(self) -> (state: StencilOpState)
        ensures
            state == (StencilOpState {
                fail_op: STENCIL_OP_KEEP,
                pass_op: STENCIL_OP_KEEP,
                depth_fail_op: STENCIL_OP_KEEP,
                compare_op: COMPARE_OP_ALWAYS,
                compare_mask: 0,
                write_mask: 0,
                reference: 0,
            }),
    {
        match self {
            StencilMode::Noop => StencilOpState {
                fail_op: STENCIL_OP_KEEP,
                pass_op: STENCIL_OP_KEEP,
                depth_fail_op: STENCIL_OP_KEEP,
                compare_op: COMPARE_OP_ALWAYS,
                compare_mask: 0,
                write_mask: 0,
                reference: 0,
            },
        }
    }
}

impl Default for StencilMode {
    fn default() -> (mode: StencilMode)
        ensures
            mode == StencilMode::Noop,
    {
        StencilMode::Noop
    }
}

/// How a pipeline tests and writes depth and stencil. The two bounds of the depth are held
/// by the bits of their single-precision values.
#[derive(Clone, Copy, Debug, Eq, PartialEq, Hash, Structural)]
pub struct DepthStencilMode {
    pub back: StencilMode,
    pub bounds_test: bool,
    /// The code of the comparison of depths.
    pub compare_op: i32,
    pub depth_test: bool,
    pub depth_write: bool,
    pub front: StencilMode,
    /// The bits of the lower bound.
    pub min: u32,
    /// The bits of the upper bound.
    pub max: u32,
    pub stencil_test: bool,
}

/// The depth and stencil state as the device takes it: each switch is 1 for on and 0 for
/// off.
#[derive(Clone, Copy, Debug, Eq, PartialEq, Hash, Structural)]
pub struct DepthStencilState {
    pub back: StencilOpState,
    pub depth_bounds_test_enable: u32,
    pub depth_compare_op: i32,
    pub depth_test_enable: u32,
    pub depth_write_enable: u32,
    pub front: StencilOpState,
    /// The bits of the upper bound.
    pub max_depth_bounds: u32,
    /// The bits of the lower bound.
    pub min_depth_bounds: u32,
    pub stencil_test_enable: u32,
}

/// A switch as the device takes it.
pub open spec fn switch(on: bool) -> u32 {
    if on {
        1
    } else {
        0
    }
}

fn bool32(on: bool) -> (bit: u32)
    ensures
        bit == switch(on),
{
    if on {
        1
    } else {
        0
    }
}

impl DepthStencilMode {
    /// What the device is asked for: the fields as they are, the switches as numbers.
    pub fn into_vk(self) -> (state: DepthStencilState)
        ensures
            state.depth_bounds_test_enable == switch(self.bounds_test),
            state.depth_compare_op == self.compare_op,
            state.depth_test_enable == switch(self.depth_test),
            state.depth_write_enable == switch(self.depth_write),
            state.max_depth_bounds == self.max,
            state.min_depth_bounds == self.min,
            state.stencil_test_enable == switch(self.stencil_test),
            state.back.fail_op == STENCIL_OP_KEEP && state.back.pass_op == STENCIL_OP_KEEP
                && state.back.depth_fail_op == STENCIL_OP_KEEP && state.back.compare_op
                == COMPARE_OP_ALWAYS && state.back.compare_mask == 0 && state.back.write_mask == 0
                && state.back.reference == 0,
            state.front == state.back,
    {
        DepthStencilState {
            back: self.back.into_vk(),
            depth_bounds_test_enable: bool32(self.bounds_test),
            depth_compare_op: self.compare_op,
            depth_test_enable: bool32(self.depth_test),
            depth_write_enable: bool32(self.depth_write),
            front: self.front.into_vk(),
            max_depth_bounds: self.max,
            min_depth_bounds: self.min,
            stencil_test_enable: bool32(self.stencil_test),
        }
    }
}

impl Default for DepthStencilMode {
    /// Depth is tested and written, with what is greater or equal passing; the bounds, from
    /// 0.0 to 1.0, are not tested; the stencil is not tested.
    fn default() -> (mode: DepthStencilMode)
        ensures
            mode == (DepthStencilMode {
                back: StencilMode::Noop,
                bounds_test: false,
                compare_op: COMPARE_OP_GREATER_OR_EQUAL,
                depth_test: true,
                depth_write: true,
                front: StencilMode::Noop,
                min: 0,
                max: ONE_BITS,
                stencil_test: false,
            }),
    {
        DepthStencilMode {
            back: StencilMode::Noop,
            bounds_test: false,
            compare_op: COMPARE_OP_GREATER_OR_EQUAL,
            depth_test: true,
            depth_write: true,
            front: StencilMode::Noop,
            min: 0,
            max: ONE_BITS,
            stencil_test: false,
        }
    }
}

/// What a graphic pipeline is created with.
#[derive(Clone, Copy, Debug, PartialEq, Eq, Hash, Structural)]
pub struct GraphicPipelineInfo {
    pub depth_stencil: Option<DepthStencilMode>,
    pub samples: SampleCount,
    pub two_sided: bool,
}

impl Default for GraphicPipelineInfo {
    fn default() -> (info: GraphicPipelineInfo)
        ensures
            info == (GraphicPipelineInfo {
                depth_stencil: None,
                samples: SampleCount::X1,
                two_sided: false,
            }),
    {
        GraphicPipelineInfo { depth_stencil: None, samples: SampleCount::X1, two_sided: false }
    }
}

/// How the triangles of a pipeline are assembled and filled.
#[derive(Clone, Copy, Debug, PartialEq, Eq, Hash, Structural)]
pub struct RasterizationState {
    /// The code of the topology.
    pub topology: i32,
    /// The code of the winding which counts as the front.
    pub front_face: i32,
    /// The code of the polygon mode.
    pub polygon_mode: i32,
    /// The cull mode.
    pub cull_mode: u32,
    pub rasterization_samples: SampleCount,
}

/// The stages of all the shaders of a pipeline: the union of their stage flags.
pub open spec fn stage_union(stages: Seq<u32>) -> u32
    decreases stages.len(),
{
    if stages.len() == 0 {
        0
    } else {
        stage_union(stages.drop_last()) | stages.last()
    }
}

impl GraphicPipelineInfo {
    /// Starts to describe a pipeline.
    pub fn new() -> (builder: GraphicPipelineInfoBuilder)
        ensures
            builder == (GraphicPipelineInfoBuilder {
                depth_stencil: None,
                samples: None,
                two_sided: None,
            }),
    {
        GraphicPipelineInfoBuilder::default()
    }

    /// The stages of all the shaders of a pipeline, given the stage flags of each.
    pub fn shader_stages(stages: &Vec<u32>) -> (union: u32)
        ensures
            union == stage_union(stages@),
    {
        let mut union: u32 = 0;
        let mut i: usize = 0;
        while i < stages.len()
            invariant
                i <= stages@.len(),
                union == stage_union(stages@.take(i as int)),
            decreases stages@.len() - i,
        {
            assert(stages@.take(i + 1).drop_last() =~= stages@.take(i as int));
            union = union | stages[i];
            i += 1;
        }
        assert(stages@.take(i as int) =~= stages@);
        union
    }

    /// How a pipeline of this description assembles and fills: lists of triangles whose
    /// front winds counter-clockwise, filled, with the samples of the description; what
    /// faces away is culled unless the pipeline is two-sided.
    pub fn rasterization_state(&self) -> (state: RasterizationState)
        ensures
            state == (RasterizationState {
                topology: PRIMITIVE_TOPOLOGY_TRIANGLE_LIST,
                front_face: FRONT_FACE_COUNTER_CLOCKWISE,
                polygon_mode: POLYGON_MODE_FILL,
                cull_mode: if self.two_sided {
                    CULL_MODE_NONE
                } else {
                    CULL_MODE_BACK
                },
                rasterization_samples: self.samples,
            }),
    {
        RasterizationState {
            topology: PRIMITIVE_TOPOLOGY_TRIANGLE_LIST,
            front_face: FRONT_FACE_COUNTER_CLOCKWISE,
            polygon_mode: POLYGON_MODE_FILL,
            cull_mode: if self.two_sided {
                CULL_MODE_NONE
            } else {
                CULL_MODE_BACK
            },
            rasterization_samples: self.samples,
        }
    }
}

/// Builds a [`GraphicPipelineInfo`] field by field.
#[derive(Clone, Copy, Debug, PartialEq, Eq, Structural)]
pub struct GraphicPipelineInfoBuilder {
    pub depth_stencil: Option<Option<DepthStencilMode>>,
    pub samples: Option<SampleCount>,
    pub two_sided: Option<bool>,
}

impl Default for GraphicPipelineInfoBuilder {
    fn default() -> (builder: GraphicPipelineInfoBuilder)
        ensures
            builder == (GraphicPipelineInfoBuilder {
                depth_stencil: None,
                samples: None,
                two_sided: None,
            }),
    {
        GraphicPipelineInfoBuilder { depth_stencil: None, samples: None, two_sided: None }
    }
}

impl GraphicPipelineInfoBuilder {
    /// Sets the depth and stencil mode.
    pub fn depth_stencil(self, value: Option<DepthStencilMode>) -> (builder: Self)
        ensures
            builder == (GraphicPipelineInfoBuilder { depth_stencil: Some(value), ..self }),
    {
        let mut builder = self;
        builder.depth_stencil = Some(value);
        builder
    }

    /// Sets the sample count.
    pub fn samples(self, value: SampleCount) -> (builder: Self)
        ensures
            builder == (GraphicPipelineInfoBuilder { samples: Some(value), ..self }),
    {
        let mut builder = self;
        builder.samples = Some(value);
        builder
    }

    /// Sets whether triangles are drawn from both sides.
    pub fn two_sided(self, value: bool) -> (builder: Self)
        ensures
            builder == (GraphicPipelineInfoBuilder { two_sided: Some(value), ..self }),
    {
        let mut builder = self;
        builder.two_sided = Some(value);
        builder
    }

    /// Builds the description. A field which was not set is no depth and stencil mode, one
    /// sample, and one-sided.
    pub fn build(self) -> (info: GraphicPipelineInfo)
        ensures
            info == (GraphicPipelineInfo {
                depth_stencil: if self.depth_stencil is Some {
                    self.depth_stencil->0
                } else {
                    None
                },
                samples: if self.samples is Some {
                    self.samples->0
                } else {
                    SampleCount::X1
                },
                two_sided: if self.two_sided is Some {
                    self.two_sided->0
                } else {
                    false
                },
            }),
    {
        GraphicPipelineInfo {
            depth_stencil: match self.depth_stencil {
                Some(value) => value,
                None => None,
            },
            samples: match self.samples {
                Some(value) => value,
                None => SampleCount::X1,
            },
            two_sided: match self.two_sided {
                Some(value) => value,
                None => false,
            },
        }
    }
}

} // verus!
