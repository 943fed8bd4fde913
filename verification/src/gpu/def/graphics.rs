//! What each of the pipelines of the engine is made of.
//!
//! The pipelines themselves are objects of the device. What is decided here is what the
//! device is asked for: the shaders, the layout of the vertices, the blending, the depth
//! test, and how many descriptors and samplers go with as many descriptor sets as are wanted.

use vstd::prelude::*;

verus! {

/// The modes in which two images are blended.
#[derive(Clone, Copy, Debug, PartialEq, Eq, Hash, Structural)]
pub enum BlendMode {
    Add,
    AlphaAdd,
    ColorBurn,
    ColorDodge,
    Color,
    Darken,
    DarkerColor,
    Difference,
    Divide,
    Exclusion,
    HardLight,
    HardMix,
    LinearBurn,
    Multiply,
    Normal,
    Overlay,
    Screen,
    Subtract,
    VividLight,
}

/// The modes in which an image is masked.
#[derive(Clone, Copy, Debug, PartialEq, Eq, Hash, Structural)]
pub enum MaskMode {
    Add,
    Darken,
    Difference,
    Intersect,
    Lighten,
    Subtract,
}

/// The modes in which an image is matted.
#[derive(Clone, Copy, Debug, PartialEq, Eq, Hash, Structural)]
pub enum MatteMode {
    Alpha,
    AlphaInv,
    Luma,
    LumaInv,
}

/// The pipelines.
#[derive(Clone, Copy, Debug, PartialEq, Eq, Hash, Structural)]
pub enum GraphicsKind {
    Blend(BlendMode),
    DrawLine,
    DrawMesh,
    DrawPointLight,
    DrawRectLight,
    DrawSpotlight,
    DrawSunlight,
    FontNormal,
    FontOutline,
    GradientLinearTrans,
    GradientLinear,
    Mask(MaskMode),
    Matte(MatteMode),
    Present,
    Skydome,
    Texture,
}

/// The shaders, by the names of their modules.
#[derive(Clone, Copy, Debug, PartialEq, Eq, Hash, Structural)]
pub enum Shader {
    BlendQuadTransformVert,
    BlendFrag(BlendMode),
    MaskFrag(MaskMode),
    MatteFrag(MatteMode),
    LightVert,
    LineVert,
    LineFrag,
    MeshVert,
    MeshFrag,
    PointLightFrag,
    RectLightFrag,
    SpotlightFrag,
    FontVert,
    FontFrag,
    FontOutlineFrag,
    GradientVert,
    GradientFrag,
    QuadVert,
    QuadTransformVert,
    TextureFrag,
    SkydomeVert,
    SkydomeFrag,
}

/// The layouts of descriptor sets.
#[derive(Clone, Copy, Debug, PartialEq, Eq, Hash, Structural)]
pub enum SetLayout {
    Blend,
    DrawMesh,
    SingleReadOnlyImg,
    Skydome,
}

/// The ranges of push constants.
#[derive(Clone, Copy, Debug, PartialEq, Eq, Hash, Structural)]
pub enum PushConsts {
    Blend,
    DrawPointLight,
    DrawRectLight,
    DrawSpotlight,
    Font,
    FontOutline,
    Skydome,
    Texture,
    VertexMat4,
}

/// The formats of vertex attributes: two, three or four floats.
#[derive(Clone, Copy, Debug, PartialEq, Eq, Hash, Structural)]
pub enum Format {
    Rg32Sfloat,
    Rgb32Sfloat,
    Rgba32Sfloat,
}

/// The layouts of the attributes of a vertex.
#[derive(Clone, Copy, Debug, PartialEq, Eq, Hash, Structural)]
pub enum Attributes {
    Vec2Vec2,
    Vec3,
    Vec3Vec2,
    Vec3Vec3,
    Vec3Vec3Vec4Vec2,
    Vec3Vec4,
}

/// One attribute of a vertex: where the shader reads it, and where it stands in the
/// vertex.
#[derive(Clone, Copy, Debug, PartialEq, Eq, Hash, Structural)]
pub struct AttributeDesc {
    pub binding: u32,
    pub location: u32,
    pub format: Format,
    pub offset: u32,
}

/// A buffer of vertices: where it is bound, and the number of bytes from one vertex to the
/// next. There is one vertex for each vertex, not for each instance.
#[derive(Clone, Copy, Debug, PartialEq, Eq, Hash, Structural)]
pub struct VertexBufferDesc {
    pub binding: u32,
    pub stride: u32,
}

/// What is assembled from the vertices.
#[derive(Clone, Copy, Debug, PartialEq, Eq, Hash, Structural)]
pub enum Primitive {
    LineList,
    TriangleList,
}

/// How the polygons are rasterized. Nothing is culled, the front winds clockwise, and lines
/// are one pixel wide.
#[derive(Clone, Copy, Debug, PartialEq, Eq, Hash, Structural)]
pub enum Rasterizer {
    Fill,
    Line,
}

/// The logic operations of the blender.
#[derive(Clone, Copy, Debug, PartialEq, Eq, Hash, Structural)]
pub enum LogicOp {
    /// The target takes the color as it is.
    Copy,
    /// Every bit of the target is set.
    SetBits,
}

/// How a color is blended into its target.
#[derive(Clone, Copy, Debug, PartialEq, Eq, Hash, Structural)]
pub enum BlendState {
    Add,
    Alpha,
    PremultipliedAlpha,
}

/// The channels of a target which are written.
#[derive(Clone, Copy, Debug, PartialEq, Eq, Hash, Structural)]
pub enum ColorMask {
    Red,
    Color,
    All,
}

/// The kinds of images which descriptors refer to.
#[derive(Clone, Copy, Debug, PartialEq, Eq, Hash, Structural)]
pub enum ImageAccess {
    ReadOnly,
    ReadWrite,
}

/// The descriptors of a pool: how many, and of which kind.
#[derive(Clone, Copy, Debug, PartialEq, Eq, Hash, Structural)]
pub struct DescriptorRange {
    pub count: usize,
    pub access: ImageAccess,
}

/// The attributes of the vertices of a pipeline, and the number of bytes from one vertex to
/// the next.
#[derive(Clone, Copy, Debug, PartialEq, Eq, Hash, Structural)]
pub struct VertexLayout {
    pub attributes: Attributes,
    pub stride: u32,
}

/// What a pipeline is made of.
#[derive(Clone, Copy, Debug, PartialEq, Eq, Hash, Structural)]
pub struct GraphicsDesc {
    pub vertex: Shader,
    pub fragment: Shader,
    /// The layout of the descriptor sets; a pipeline without descriptor sets has none.
    pub set_layout: Option<SetLayout>,
    pub push_consts: PushConsts,
    /// The layout of the vertices; a pipeline which draws a quad without a vertex buffer has
    /// none.
    pub vertices: Option<VertexLayout>,
    pub primitive: Primitive,
    pub rasterizer: Rasterizer,
    pub logic_op: Option<LogicOp>,
    /// The number of color targets.
    pub targets: usize,
    /// How each target is blended, if it is.
    pub blend: Option<BlendState>,
    pub mask: ColorMask,
    /// Whether the depth is tested, which it then is for what is less or equal, and whether
    /// it is written.
    pub depth: Option<bool>,
    /// The descriptors of the pool which the descriptor sets are allocated from.
    pub descriptors: Option<DescriptorRange>,
    /// The number of descriptor sets.
    pub max_desc_sets: usize,
    /// The number of samplers, each of which takes the nearest texel.
    pub samplers: usize,
}

/// The number of bytes of an attribute.
pub open spec fn format_size(format: Format) -> u32 {
    match format {
        Format::Rg32Sfloat => 8,
        Format::Rgb32Sfloat => 12,
        Format::Rgba32Sfloat => 16,
    }
}

/// The formats of the attributes of a layout, in their order.
pub open spec fn formats(attributes: Attributes) -> Seq<Format> {
    match attributes {
        Attributes::Vec2Vec2 => seq![Format::Rg32Sfloat, Format::Rg32Sfloat],
        Attributes::Vec3 => seq![Format::Rgb32Sfloat],
        Attributes::Vec3Vec2 => seq![Format::Rgb32Sfloat, Format::Rg32Sfloat],
        Attributes::Vec3Vec3 => seq![Format::Rgb32Sfloat, Format::Rgb32Sfloat],
        Attributes::Vec3Vec3Vec4Vec2 => seq![
            Format::Rgb32Sfloat,
            Format::Rgb32Sfloat,
            Format::Rgba32Sfloat,
            Format::Rg32Sfloat,
        ],
        Attributes::Vec3Vec4 => seq![Format::Rgb32Sfloat, Format::Rgba32Sfloat],
    }
}

/// The number of bytes which the first `n` of the formats take.
pub open spec fn size_of_first(formats: Seq<Format>, n: int) -> int
    decreases n,
{
    if n <= 0 {
        0
    } else {
        size_of_first(formats, n - 1) + format_size(formats[n - 1])
    }
}

/// The number of bytes of a vertex with the attributes of a layout.
pub open spec fn vertex_size(attributes: Attributes) -> int {
    size_of_first(formats(attributes), formats(attributes).len() as int)
}

/// The attributes of a layout: they are read from the binding 0 at consecutive locations,
/// and stand in the vertex one behind the other.
pub fn attribute_descs(attributes: Attributes) -> (descs: Vec<AttributeDesc>)
    ensures
        descs@.len() == formats(attributes).len(),
        forall|i: int|
            0 <= i < descs@.len() ==> #[trigger] descs@[i] == (AttributeDesc {
                binding: 0,
                location: i as u32,
                format: formats(attributes)[i],
                offset: size_of_first(formats(attributes), i) as u32,
            }),
{
    let list: Vec<Format> = match attributes {
        Attributes::Vec2Vec2 => vec![Format::Rg32Sfloat, Format::Rg32Sfloat],
        Attributes::Vec3 => vec![Format::Rgb32Sfloat],
        Attributes::Vec3Vec2 => vec![Format::Rgb32Sfloat, Format::Rg32Sfloat],
        Attributes::Vec3Vec3 => vec![Format::Rgb32Sfloat, Format::Rgb32Sfloat],
        Attributes::Vec3Vec3Vec4Vec2 => vec![
            Format::Rgb32Sfloat,
            Format::Rgb32Sfloat,
            Format::Rgba32Sfloat,
            Format::Rg32Sfloat,
        ],
        Attributes::Vec3Vec4 => vec![Format::Rgb32Sfloat, Format::Rgba32Sfloat],
    };
    assert(list@ =~= formats(attributes));
    let mut descs: Vec<AttributeDesc> = Vec::new();
    let mut offset: u32 = 0;
    let mut i: usize = 0;
    while i < list.len()
        invariant
            list@ == formats(attributes),
            list@.len() <= 4,
            i <= list@.len(),
            descs@.len() == i,
            offset == size_of_first(list@, i as int),
            offset <= 16 * i,
            forall|j: int|
                0 <= j < i ==> #[trigger] descs@[j] == (AttributeDesc {
                    binding: 0,
                    location: j as u32,
                    format: list@[j],
                    offset: size_of_first(list@, j) as u32,
                }),
        decreases list@.len() - i,
    {
        let format = list[i];
        descs.push(AttributeDesc { binding: 0, location: i as u32, format, offset });
        offset = offset + match format {
            Format::Rg32Sfloat => 8,
            Format::Rgb32Sfloat => 12,
            Format::Rgba32Sfloat => 16,
        };
        i += 1;
    }
    descs
}

/// The description of the one buffer of vertices of a pipeline.
pub fn vertex_buf_with_stride(stride: u32) -> (desc: VertexBufferDesc)
    ensures
        desc == (VertexBufferDesc { binding: 0, stride }),
{
    VertexBufferDesc { binding: 0, stride }
}

/// A pipeline which blends, masks or mattes: it draws a transformed quad with the fragment
/// shader of its mode from two read-only images for each descriptor set.
pub open spec fn blend_plan(fragment: Shader, max_desc_sets: usize) -> Option<GraphicsDesc> {
    if 2 * max_desc_sets > usize::MAX {
        None
    } else {
        Some(
            GraphicsDesc {
                vertex: Shader::BlendQuadTransformVert,
                fragment,
                set_layout: Some(SetLayout::Blend),
                push_consts: PushConsts::Blend,
                vertices: None,
                primitive: Primitive::TriangleList,
                rasterizer: Rasterizer::Fill,
                logic_op: Some(LogicOp::Copy),
                targets: 1,
                blend: Some(BlendState::PremultipliedAlpha),
                mask: ColorMask::All,
                depth: None,
                descriptors: Some(
                    DescriptorRange {
                        count: (2 * max_desc_sets) as usize,
                        access: ImageAccess::ReadOnly,
                    },
                ),
                max_desc_sets,
                samplers: 1,
            },
        )
    }
}

/// A pipeline which draws a light: it adds to the red channel of one target what its shader
/// makes of a mesh of positions, tests the depth without writing it, and has no descriptor
/// sets.
pub open spec fn light_plan(fragment: Shader, push_consts: PushConsts, max_desc_sets: usize)
    -> Option<GraphicsDesc> {
    if max_desc_sets != 0 {
        None
    } else {
        Some(
            GraphicsDesc {
                vertex: Shader::LightVert,
                fragment,
                set_layout: None,
                push_consts,
                vertices: Some(VertexLayout { attributes: Attributes::Vec3, stride: 12 }),
                primitive: Primitive::TriangleList,
                rasterizer: Rasterizer::Fill,
                logic_op: None,
                targets: 1,
                blend: Some(BlendState::Add),
                mask: ColorMask::Red,
                depth: Some(false),
                descriptors: None,
                max_desc_sets: 0,
                samplers: 0,
            },
        )
    }
}

/// A pipeline which draws with one read-only image for each descriptor set, blended by
/// premultiplied alpha into one target.
pub open spec fn image_plan(
    vertex: Shader,
    fragment: Shader,
    push_consts: PushConsts,
    vertices: Option<VertexLayout>,
    max_desc_sets: usize,
) -> Option<GraphicsDesc> {
    Some(
        GraphicsDesc {
            vertex,
            fragment,
            set_layout: Some(SetLayout::SingleReadOnlyImg),
            push_consts,
            vertices,
            primitive: Primitive::TriangleList,
            rasterizer: Rasterizer::Fill,
            logic_op: None,
            targets: 1,
            blend: Some(BlendState::PremultipliedAlpha),
            mask: ColorMask::All,
            depth: None,
            descriptors: Some(
                DescriptorRange { count: max_desc_sets, access: ImageAccess::ReadOnly },
            ),
            max_desc_sets,
            samplers: 1,
        },
    )
}

/// What the pipeline `kind` with `max_desc_sets` descriptor sets is made of. There is none
/// for sunlight; none for lines and lights with any descriptor set; and none where the
/// descriptors of the sets are more than can be counted.
pub open spec fn plan(kind: GraphicsKind, max_desc_sets: usize) -> Option<GraphicsDesc> {
    match kind {
        GraphicsKind::Blend(mode) => blend_plan(Shader::BlendFrag(mode), max_desc_sets),
        GraphicsKind::Mask(mode) => blend_plan(Shader::MaskFrag(mode), max_desc_sets),
        GraphicsKind::Matte(mode) => blend_plan(Shader::MatteFrag(mode), max_desc_sets),
        GraphicsKind::DrawPointLight => light_plan(
            Shader::PointLightFrag,
            PushConsts::DrawPointLight,
            max_desc_sets,
        ),
        GraphicsKind::DrawRectLight => light_plan(
            Shader::RectLightFrag,
            PushConsts::DrawRectLight,
            max_desc_sets,
        ),
        GraphicsKind::DrawSpotlight => light_plan(
            Shader::SpotlightFrag,
            PushConsts::DrawSpotlight,
            max_desc_sets,
        ),
        GraphicsKind::DrawSunlight => None,
        GraphicsKind::DrawLine => if max_desc_sets != 0 {
            None
        } else {
            Some(
                GraphicsDesc {
                    vertex: Shader::LineVert,
                    fragment: Shader::LineFrag,
                    set_layout: None,
                    push_consts: PushConsts::VertexMat4,
                    vertices: Some(VertexLayout { attributes: Attributes::Vec3Vec4, stride: 32 }),
                    primitive: Primitive::LineList,
                    rasterizer: Rasterizer::Line,
                    logic_op: Some(LogicOp::SetBits),
                    targets: 4,
                    blend: None,
                    mask: ColorMask::All,
                    depth: None,
                    descriptors: None,
                    max_desc_sets: 0,
                    samplers: 0,
                },
            )
        },
        GraphicsKind::DrawMesh => if 3 * max_desc_sets > usize::MAX {
            None
        } else {
            Some(
                GraphicsDesc {
                    vertex: Shader::MeshVert,
                    fragment: Shader::MeshFrag,
                    set_layout: Some(SetLayout::DrawMesh),
                    push_consts: PushConsts::VertexMat4,
                    vertices: Some(VertexLayout { attributes: Attributes::Vec3Vec3Vec4Vec2,
                        stride: 48 }),
                    primitive: Primitive::TriangleList,
                    rasterizer: Rasterizer::Fill,
                    logic_op: None,
                    targets: 2,
                    blend: None,
                    mask: ColorMask::All,
                    depth: Some(true),
                    descriptors: Some(
                        DescriptorRange {
                            count: (3 * max_desc_sets) as usize,
                            access: ImageAccess::ReadOnly,
                        },
                    ),
                    max_desc_sets,
                    samplers: 3,
                },
            )
        },
        GraphicsKind::FontNormal => image_plan(
            Shader::FontVert,
            Shader::FontFrag,
            PushConsts::Font,
            Some(VertexLayout { attributes: Attributes::Vec2Vec2, stride: 16 }),
            max_desc_sets,
        ),
        GraphicsKind::FontOutline => image_plan(
            Shader::FontVert,
            Shader::FontOutlineFrag,
            PushConsts::FontOutline,
            Some(VertexLayout { attributes: Attributes::Vec2Vec2, stride: 16 }),
            max_desc_sets,
        ),
        GraphicsKind::GradientLinearTrans | GraphicsKind::GradientLinear => image_plan(
            Shader::GradientVert,
            Shader::GradientFrag,
            PushConsts::VertexMat4,
            None,
            max_desc_sets,
        ),
        GraphicsKind::Present => Some(
            GraphicsDesc {
                vertex: Shader::QuadVert,
                fragment: Shader::TextureFrag,
                set_layout: Some(SetLayout::SingleReadOnlyImg),
                push_consts: PushConsts::VertexMat4,
                vertices: None,
                primitive: Primitive::TriangleList,
                rasterizer: Rasterizer::Fill,
                logic_op: None,
                targets: 1,
                blend: Some(BlendState::Alpha),
                mask: ColorMask::All,
                depth: None,
                descriptors: Some(
                    DescriptorRange { count: max_desc_sets, access: ImageAccess::ReadWrite },
                ),
                max_desc_sets,
                samplers: 1,
            },
        ),
        GraphicsKind::Skydome => if 6 * max_desc_sets > usize::MAX {
            None
        } else {
            Some(
                GraphicsDesc {
                    vertex: Shader::SkydomeVert,
                    fragment: Shader::SkydomeFrag,
                    set_layout: Some(SetLayout::Skydome),
                    push_consts: PushConsts::Skydome,
                    vertices: Some(VertexLayout { attributes: Attributes::Vec3, stride: 12 }),
                    primitive: Primitive::TriangleList,
                    rasterizer: Rasterizer::Fill,
                    logic_op: None,
                    targets: 1,
                    blend: None,
                    mask: ColorMask::Color,
                    depth: Some(true),
                    descriptors: Some(
                        DescriptorRange {
                            count: (6 * max_desc_sets) as usize,
                            access: ImageAccess::ReadOnly,
                        },
                    ),
                    max_desc_sets,
                    samplers: 6,
                },
            )
        },
        GraphicsKind::Texture => Some(
            GraphicsDesc {
                vertex: Shader::QuadTransformVert,
                fragment: Shader::TextureFrag,
                set_layout: Some(SetLayout::SingleReadOnlyImg),
                push_consts: PushConsts::Texture,
                vertices: None,
                primitive: Primitive::TriangleList,
                rasterizer: Rasterizer::Fill,
                logic_op: Some(LogicOp::SetBits),
                targets: 1,
                blend: Some(BlendState::PremultipliedAlpha),
                mask: ColorMask::All,
                depth: None,
                descriptors: Some(DescriptorRange { count: 1, access: ImageAccess::ReadOnly }),
                max_desc_sets,
                samplers: 1,
            },
        ),
    }
}

fn blend(fragment: Shader, max_desc_sets: usize) -> (desc: Option<GraphicsDesc>)
    ensures
        desc == blend_plan(fragment, max_desc_sets),
{
    let count = match max_desc_sets.checked_mul(2) {
        Some(count) => count,
        None => {
            return None;
        },
    };
    Some(
        GraphicsDesc {
            vertex: Shader::BlendQuadTransformVert,
            fragment,
            set_layout: Some(SetLayout::Blend),
            push_consts: PushConsts::Blend,
            vertices: None,
            primitive: Primitive::TriangleList,
            rasterizer: Rasterizer::Fill,
            logic_op: Some(LogicOp::Copy),
            targets: 1,
            blend: Some(BlendState::PremultipliedAlpha),
            mask: ColorMask::All,
            depth: None,
            descriptors: Some(DescriptorRange { count, access: ImageAccess::ReadOnly }),
            max_desc_sets,
            samplers: 1,
        },
    )
}

fn draw_light(fragment: Shader, push_consts: PushConsts, max_desc_sets: usize) -> (desc: Option<
    GraphicsDesc,
>)
    ensures
        desc == light_plan(fragment, push_consts, max_desc_sets),
{
    if max_desc_sets != 0 {
        return None;
    }
    Some(
        GraphicsDesc {
            vertex: Shader::LightVert,
            fragment,
            set_layout: None,
            push_consts,
            vertices: Some(VertexLayout { attributes: Attributes::Vec3, stride: 12 }),
            primitive: Primitive::TriangleList,
            rasterizer: Rasterizer::Fill,
            logic_op: None,
            targets: 1,
            blend: Some(BlendState::Add),
            mask: ColorMask::Red,
            depth: Some(false),
            descriptors: None,
            max_desc_sets: 0,
            samplers: 0,
        },
    )
}

fn image(
    vertex: Shader,
    fragment: Shader,
    push_consts: PushConsts,
    vertices: Option<VertexLayout>,
    max_desc_sets: usize,
) -> (desc: Option<GraphicsDesc>)
    ensures
        desc == image_plan(vertex, fragment, push_consts, vertices, max_desc_sets),
{
    Some(
        GraphicsDesc {
            vertex,
            fragment,
            set_layout: Some(SetLayout::SingleReadOnlyImg),
            push_consts,
            vertices,
            primitive: Primitive::TriangleList,
            rasterizer: Rasterizer::Fill,
            logic_op: None,
            targets: 1,
            blend: Some(BlendState::PremultipliedAlpha),
            mask: ColorMask::All,
            depth: None,
            descriptors: Some(
                DescriptorRange { count: max_desc_sets, access: ImageAccess::ReadOnly },
            ),
            max_desc_sets,
            samplers: 1,
        },
    )
}

/// Says what the pipeline `kind` with `max_desc_sets` descriptor sets is made of; see
/// [`plan`].
pub fn describe(kind: GraphicsKind, max_desc_sets: usize) -> (desc: Option<GraphicsDesc>)
    ensures
        desc == plan(kind, max_desc_sets),
{
    match kind {
        GraphicsKind::Blend(mode) => blend(Shader::BlendFrag(mode), max_desc_sets),
        GraphicsKind::Mask(mode) => blend(Shader::MaskFrag(mode), max_desc_sets),
        GraphicsKind::Matte(mode) => blend(Shader::MatteFrag(mode), max_desc_sets),
        GraphicsKind::DrawPointLight => draw_light(
            Shader::PointLightFrag,
            PushConsts::DrawPointLight,
            max_desc_sets,
        ),
        GraphicsKind::DrawRectLight => draw_light(
            Shader::RectLightFrag,
            PushConsts::DrawRectLight,
            max_desc_sets,
        ),
        GraphicsKind::DrawSpotlight => draw_light(
            Shader::SpotlightFrag,
            PushConsts::DrawSpotlight,
            max_desc_sets,
        ),
        GraphicsKind::DrawSunlight => None,
        GraphicsKind::DrawLine => {
            if max_desc_sets != 0 {
                return None;
            }
            Some(
                GraphicsDesc {
                    vertex: Shader::LineVert,
                    fragment: Shader::LineFrag,
                    set_layout: None,
                    push_consts: PushConsts::VertexMat4,
                    vertices: Some(VertexLayout { attributes: Attributes::Vec3Vec4, stride: 32 }),
                    primitive: Primitive::LineList,
                    rasterizer: Rasterizer::Line,
                    logic_op: Some(LogicOp::SetBits),
                    targets: 4,
                    blend: None,
                    mask: ColorMask::All,
                    depth: None,
                    descriptors: None,
                    max_desc_sets: 0,
                    samplers: 0,
                },
            )
        },
        GraphicsKind::DrawMesh => {
            let count = match max_desc_sets.checked_mul(3) {
                Some(count) => count,
                None => {
                    return None;
                },
            };
            Some(
                GraphicsDesc {
                    vertex: Shader::MeshVert,
                    fragment: Shader::MeshFrag,
                    set_layout: Some(SetLayout::DrawMesh),
                    push_consts: PushConsts::VertexMat4,
                    vertices: Some(VertexLayout { attributes: Attributes::Vec3Vec3Vec4Vec2,
                        stride: 48 }),
                    primitive: Primitive::TriangleList,
                    rasterizer: Rasterizer::Fill,
                    logic_op: None,
                    targets: 2,
                    blend: None,
                    mask: ColorMask::All,
                    depth: Some(true),
                    descriptors: Some(DescriptorRange { count, access: ImageAccess::ReadOnly }),
                    max_desc_sets,
                    samplers: 3,
                },
            )
        },
        GraphicsKind::FontNormal => image(
            Shader::FontVert,
            Shader::FontFrag,
            PushConsts::Font,
            Some(VertexLayout { attributes: Attributes::Vec2Vec2, stride: 16 }),
            max_desc_sets,
        ),
        GraphicsKind::FontOutline => image(
            Shader::FontVert,
            Shader::FontOutlineFrag,
            PushConsts::FontOutline,
            Some(VertexLayout { attributes: Attributes::Vec2Vec2, stride: 16 }),
            max_desc_sets,
        ),
        GraphicsKind::GradientLinearTrans => image(
            Shader::GradientVert,
            Shader::GradientFrag,
            PushConsts::VertexMat4,
            None,
            max_desc_sets,
        ),
        GraphicsKind::GradientLinear => image(
            Shader::GradientVert,
            Shader::GradientFrag,
            PushConsts::VertexMat4,
            None,
            max_desc_sets,
        ),
        GraphicsKind::Present => Some(
            GraphicsDesc {
                vertex: Shader::QuadVert,
                fragment: Shader::TextureFrag,
                set_layout: Some(SetLayout::SingleReadOnlyImg),
                push_consts: PushConsts::VertexMat4,
                vertices: None,
                primitive: Primitive::TriangleList,
                rasterizer: Rasterizer::Fill,
                logic_op: None,
                targets: 1,
                blend: Some(BlendState::Alpha),
                mask: ColorMask::All,
                depth: None,
                descriptors: Some(
                    DescriptorRange { count: max_desc_sets, access: ImageAccess::ReadWrite },
                ),
                max_desc_sets,
                samplers: 1,
            },
        ),
        GraphicsKind::Skydome => {
            let count = match max_desc_sets.checked_mul(6) {
                Some(count) => count,
                None => {
                    return None;
                },
            };
            Some(
                GraphicsDesc {
                    vertex: Shader::SkydomeVert,
                    fragment: Shader::SkydomeFrag,
                    set_layout: Some(SetLayout::Skydome),
                    push_consts: PushConsts::Skydome,
                    vertices: Some(VertexLayout { attributes: Attributes::Vec3, stride: 12 }),
                    primitive: Primitive::TriangleList,
                    rasterizer: Rasterizer::Fill,
                    logic_op: None,
                    targets: 1,
                    blend: None,
                    mask: ColorMask::Color,
                    depth: Some(true),
                    descriptors: Some(DescriptorRange { count, access: ImageAccess::ReadOnly }),
                    max_desc_sets,
                    samplers: 6,
                },
            )
        },
        GraphicsKind::Texture => Some(
            GraphicsDesc {
                vertex: Shader::QuadTransformVert,
                fragment: Shader::TextureFrag,
                set_layout: Some(SetLayout::SingleReadOnlyImg),
                push_consts: PushConsts::Texture,
                vertices: None,
                primitive: Primitive::TriangleList,
                rasterizer: Rasterizer::Fill,
                logic_op: Some(LogicOp::SetBits),
                targets: 1,
                blend: Some(BlendState::PremultipliedAlpha),
                mask: ColorMask::All,
                depth: None,
                descriptors: Some(DescriptorRange { count: 1, access: ImageAccess::ReadOnly }),
                max_desc_sets,
                samplers: 1,
            },
        ),
    }
}

/// The vertices of every pipeline hold their attributes: where a pipeline reads vertices,
/// the attributes of its layout take no more bytes than the stride from one vertex to the
/// next.
pub proof fn lemma_attributes_fit(kind: GraphicsKind, max_desc_sets: usize)
    requires
        plan(kind, max_desc_sets) is Some,
        plan(kind, max_desc_sets)->0.vertices is Some,
    ensures
        vertex_size(plan(kind, max_desc_sets)->0.vertices->0.attributes) <= plan(
            kind,
            max_desc_sets,
        )->0.vertices->0.stride,
{
    reveal_with_fuel(size_of_first, 5);
}

/// A pipeline of the device with what belongs to it, each named by its handle.
pub struct Graphics {
    desc_pool: Option<u64>,
    desc_sets: Vec<u64>,
    layout: u64,
    max_desc_sets: usize,
    pipeline: u64,
    samplers: Vec<u64>,
    set_layout: Option<u64>,
}

impl Graphics {
    /// The handles of the descriptor sets.
    pub closed spec fn sets(&self) -> Seq<u64> {
        self.desc_sets@
    }

    /// The handles of the samplers.
    pub closed spec fn sampler_handles(&self) -> Seq<u64> {
        self.samplers@
    }

    /// The handle of the pipeline layout.
    pub closed spec fn layout_handle(&self) -> u64 {
        self.layout
    }

    /// The handle of the pipeline.
    pub closed spec fn pipeline_handle(&self) -> u64 {
        self.pipeline
    }

    /// The number of descriptor sets which the pipeline was made for.
    pub closed spec fn max_sets(&self) -> usize {
        self.max_desc_sets
    }

    /// Whether the pipeline has a descriptor pool and a layout of its descriptor sets.
    pub closed spec fn has_pool(&self) -> bool {
        self.desc_pool is Some && self.set_layout is Some
    }

    /// Puts together what the device has created for the description `desc`. The descriptor
    /// pool and the layout of the sets are there if and only if the description has
    /// descriptors; there are as many descriptor sets and samplers as it asks for.
    pub fn assemble(
        desc: &GraphicsDesc,
        pipeline: u64,
        layout: u64,
        pool: Option<(u64, u64)>,
        desc_sets: Vec<u64>,
        samplers: Vec<u64>,
    ) -> (graphics: Option<Graphics>)
        ensures
            graphics is Some <==> (pool is Some <==> desc.descriptors is Some) && desc_sets@.len()
                == desc.max_desc_sets && samplers@.len() == desc.samplers,
            graphics is Some ==> graphics->0.sets() == desc_sets@ && graphics->0.sampler_handles()
                == samplers@ && graphics->0.layout_handle() == layout
                && graphics->0.pipeline_handle() == pipeline && graphics->0.max_sets()
                == desc.max_desc_sets && graphics->0.has_pool() == (pool is Some),
    {
        if pool.is_some() != desc.descriptors.is_some() || desc_sets.len() != desc.max_desc_sets
            || samplers.len() != desc.samplers {
            return None;
        }
        let (desc_pool, set_layout) = match pool {
            Some((desc_pool, set_layout)) => (Some(desc_pool), Some(set_layout)),
            None => (None, None),
        };
        Some(
            Graphics {
                desc_pool,
                desc_sets,
                layout,
                max_desc_sets: desc.max_desc_sets,
                pipeline,
                samplers,
                set_layout,
            },
        )
    }

    /// The pipeline which blends two images in the mode `Add`.
    pub fn blend_add(max_desc_sets: usize) -> (desc: Option<GraphicsDesc>)
        ensures
            desc == plan(GraphicsKind::Blend(BlendMode::Add), max_desc_sets),
    {
        describe(GraphicsKind::Blend(BlendMode::Add), max_desc_sets)
    }

    /// The pipeline which blends two images in the mode `AlphaAdd`.
    pub fn blend_alpha_add(max_desc_sets: usize) -> (desc: Option<GraphicsDesc>)
        ensures
            desc == plan(GraphicsKind::Blend(BlendMode::AlphaAdd), max_desc_sets),
    {
        describe(GraphicsKind::Blend(BlendMode::AlphaAdd), max_desc_sets)
    }

    /// The pipeline which blends two images in the mode `ColorBurn`.
    pub fn blend_color_burn(max_desc_sets: usize) -> (desc: Option<GraphicsDesc>)
        ensures
            desc == plan(GraphicsKind::Blend(BlendMode::ColorBurn), max_desc_sets),
    {
        describe(GraphicsKind::Blend(BlendMode::ColorBurn), max_desc_sets)
    }

    /// The pipeline which blends two images in the mode `ColorDodge`.
    pub fn blend_color_dodge(max_desc_sets: usize) -> (desc: Option<GraphicsDesc>)
        ensures
            desc == plan(GraphicsKind::Blend(BlendMode::ColorDodge), max_desc_sets),
    {
        describe(GraphicsKind::Blend(BlendMode::ColorDodge), max_desc_sets)
    }

    /// The pipeline which blends two images in the mode `Color`.
    pub fn blend_color(max_desc_sets: usize) -> (desc: Option<GraphicsDesc>)
        ensures
            desc == plan(GraphicsKind::Blend(BlendMode::Color), max_desc_sets),
    {
        describe(GraphicsKind::Blend(BlendMode::Color), max_desc_sets)
    }

    /// The pipeline which blends two images in the mode `Darken`.
    pub fn blend_darken(max_desc_sets: usize) -> (desc: Option<GraphicsDesc>)
        ensures
            desc == plan(GraphicsKind::Blend(BlendMode::Darken), max_desc_sets),
    {
        describe(GraphicsKind::Blend(BlendMode::Darken), max_desc_sets)
    }

    /// The pipeline which blends two images in the mode `DarkerColor`.
    pub fn blend_darker_color(max_desc_sets: usize) -> (desc: Option<GraphicsDesc>)
        ensures
            desc == plan(GraphicsKind::Blend(BlendMode::DarkerColor), max_desc_sets),
    {
        describe(GraphicsKind::Blend(BlendMode::DarkerColor), max_desc_sets)
    }

    /// The pipeline which blends two images in the mode `Difference`.
    pub fn blend_difference(max_desc_sets: usize) -> (desc: Option<GraphicsDesc>)
        ensures
            desc == plan(GraphicsKind::Blend(BlendMode::Difference), max_desc_sets),
    {
        describe(GraphicsKind::Blend(BlendMode::Difference), max_desc_sets)
    }

    /// The pipeline which blends two images in the mode `Divide`.
    pub fn blend_divide(max_desc_sets: usize) -> (desc: Option<GraphicsDesc>)
        ensures
            desc == plan(GraphicsKind::Blend(BlendMode::Divide), max_desc_sets),
    {
        describe(GraphicsKind::Blend(BlendMode::Divide), max_desc_sets)
    }

    /// The pipeline which blends two images in the mode `Exclusion`.
    pub fn blend_exclusion(max_desc_sets: usize) -> (desc: Option<GraphicsDesc>)
        ensures
            desc == plan(GraphicsKind::Blend(BlendMode::Exclusion), max_desc_sets),
    {
        describe(GraphicsKind::Blend(BlendMode::Exclusion), max_desc_sets)
    }

    /// The pipeline which blends two images in the mode `HardLight`.
    pub fn blend_hard_light(max_desc_sets: usize) -> (desc: Option<GraphicsDesc>)
        ensures
            desc == plan(GraphicsKind::Blend(BlendMode::HardLight), max_desc_sets),
    {
        describe(GraphicsKind::Blend(BlendMode::HardLight), max_desc_sets)
    }

    /// The pipeline which blends two images in the mode `HardMix`.
    pub fn blend_hard_mix(max_desc_sets: usize) -> (desc: Option<GraphicsDesc>)
        ensures
            desc == plan(GraphicsKind::Blend(BlendMode::HardMix), max_desc_sets),
    {
        describe(GraphicsKind::Blend(BlendMode::HardMix), max_desc_sets)
    }

    /// The pipeline which blends two images in the mode `LinearBurn`.
    pub fn blend_linear_burn(max_desc_sets: usize) -> (desc: Option<GraphicsDesc>)
        ensures
            desc == plan(GraphicsKind::Blend(BlendMode::LinearBurn), max_desc_sets),
    {
        describe(GraphicsKind::Blend(BlendMode::LinearBurn), max_desc_sets)
    }

    /// The pipeline which blends two images in the mode `Multiply`.
    pub fn blend_multiply(max_desc_sets: usize) -> (desc: Option<GraphicsDesc>)
        ensures
            desc == plan(GraphicsKind::Blend(BlendMode::Multiply), max_desc_sets),
    {
        describe(GraphicsKind::Blend(BlendMode::Multiply), max_desc_sets)
    }

    /// The pipeline which blends two images in the mode `Normal`.
    pub fn blend_normal(max_desc_sets: usize) -> (desc: Option<GraphicsDesc>)
        ensures
            desc == plan(GraphicsKind::Blend(BlendMode::Normal), max_desc_sets),
    {
        describe(GraphicsKind::Blend(BlendMode::Normal), max_desc_sets)
    }

    /// The pipeline which blends two images in the mode `Overlay`.
    pub fn blend_overlay(max_desc_sets: usize) -> (desc: Option<GraphicsDesc>)
        ensures
            desc == plan(GraphicsKind::Blend(BlendMode::Overlay), max_desc_sets),
    {
        describe(GraphicsKind::Blend(BlendMode::Overlay), max_desc_sets)
    }

    /// The pipeline which blends two images in the mode `Screen`.
    pub fn blend_screen(max_desc_sets: usize) -> (desc: Option<GraphicsDesc>)
        ensures
            desc == plan(GraphicsKind::Blend(BlendMode::Screen), max_desc_sets),
    {
        describe(GraphicsKind::Blend(BlendMode::Screen), max_desc_sets)
    }

    /// The pipeline which blends two images in the mode `Subtract`.
    pub fn blend_subtract(max_desc_sets: usize) -> (desc: Option<GraphicsDesc>)
        ensures
            desc == plan(GraphicsKind::Blend(BlendMode::Subtract), max_desc_sets),
    {
        describe(GraphicsKind::Blend(BlendMode::Subtract), max_desc_sets)
    }

    /// The pipeline which blends two images in the mode `VividLight`.
    pub fn blend_vivid_light(max_desc_sets: usize) -> (desc: Option<GraphicsDesc>)
        ensures
            desc == plan(GraphicsKind::Blend(BlendMode::VividLight), max_desc_sets),
    {
        describe(GraphicsKind::Blend(BlendMode::VividLight), max_desc_sets)
    }

    /// The pipeline which draws lines.
    pub fn draw_line(max_desc_sets: usize) -> (desc: Option<GraphicsDesc>)
        ensures
            desc == plan(GraphicsKind::DrawLine, max_desc_sets),
    {
        describe(GraphicsKind::DrawLine, max_desc_sets)
    }

    /// The pipeline which draws meshes.
    pub fn draw_mesh(max_desc_sets: usize) -> (desc: Option<GraphicsDesc>)
        ensures
            desc == plan(GraphicsKind::DrawMesh, max_desc_sets),
    {
        describe(GraphicsKind::DrawMesh, max_desc_sets)
    }

    /// The pipeline which draws point lights.
    pub fn draw_point_light(max_desc_sets: usize) -> (desc: Option<GraphicsDesc>)
        ensures
            desc == plan(GraphicsKind::DrawPointLight, max_desc_sets),
    {
        describe(GraphicsKind::DrawPointLight, max_desc_sets)
    }

    /// The pipeline which draws rectangular lights.
    pub fn draw_rect_light(max_desc_sets: usize) -> (desc: Option<GraphicsDesc>)
        ensures
            desc == plan(GraphicsKind::DrawRectLight, max_desc_sets),
    {
        describe(GraphicsKind::DrawRectLight, max_desc_sets)
    }

    /// The pipeline which draws spotlights.
    pub fn draw_spotlight(max_desc_sets: usize) -> (desc: Option<GraphicsDesc>)
        ensures
            desc == plan(GraphicsKind::DrawSpotlight, max_desc_sets),
    {
        describe(GraphicsKind::DrawSpotlight, max_desc_sets)
    }

    /// The pipeline which draws sunlight: there is none yet.
    pub fn draw_sunlight(max_desc_sets: usize) -> (desc: Option<GraphicsDesc>)
        ensures
            desc == plan(GraphicsKind::DrawSunlight, max_desc_sets),
    {
        describe(GraphicsKind::DrawSunlight, max_desc_sets)
    }

    /// The pipeline which draws text.
    pub fn font_normal(max_desc_sets: usize) -> (desc: Option<GraphicsDesc>)
        ensures
            desc == plan(GraphicsKind::FontNormal, max_desc_sets),
    {
        describe(GraphicsKind::FontNormal, max_desc_sets)
    }

    /// The pipeline which draws outlined text.
    pub fn font_outline(max_desc_sets: usize) -> (desc: Option<GraphicsDesc>)
        ensures
            desc == plan(GraphicsKind::FontOutline, max_desc_sets),
    {
        describe(GraphicsKind::FontOutline, max_desc_sets)
    }

    /// The pipeline which draws linear gradients with transparency.
    pub fn gradient_linear_trans(max_desc_sets: usize) -> (desc: Option<GraphicsDesc>)
        ensures
            desc == plan(GraphicsKind::GradientLinearTrans, max_desc_sets),
    {
        describe(GraphicsKind::GradientLinearTrans, max_desc_sets)
    }

    /// The pipeline which draws linear gradients.
    pub fn gradient_linear(max_desc_sets: usize) -> (desc: Option<GraphicsDesc>)
        ensures
            desc == plan(GraphicsKind::GradientLinear, max_desc_sets),
    {
        describe(GraphicsKind::GradientLinear, max_desc_sets)
    }

    /// The pipeline which masks an image in the mode `Add`.
    pub fn mask_add(max_desc_sets: usize) -> (desc: Option<GraphicsDesc>)
        ensures
            desc == plan(GraphicsKind::Mask(MaskMode::Add), max_desc_sets),
    {
        describe(GraphicsKind::Mask(MaskMode::Add), max_desc_sets)
    }

    /// The pipeline which masks an image in the mode `Darken`.
    pub fn mask_darken(max_desc_sets: usize) -> (desc: Option<GraphicsDesc>)
        ensures
            desc == plan(GraphicsKind::Mask(MaskMode::Darken), max_desc_sets),
    {
        describe(GraphicsKind::Mask(MaskMode::Darken), max_desc_sets)
    }

    /// The pipeline which masks an image in the mode `Difference`.
    pub fn mask_difference(max_desc_sets: usize) -> (desc: Option<GraphicsDesc>)
        ensures
            desc == plan(GraphicsKind::Mask(MaskMode::Difference), max_desc_sets),
    {
        describe(GraphicsKind::Mask(MaskMode::Difference), max_desc_sets)
    }

    /// The pipeline which masks an image in the mode `Intersect`.
    pub fn mask_intersect(max_desc_sets: usize) -> (desc: Option<GraphicsDesc>)
        ensures
            desc == plan(GraphicsKind::Mask(MaskMode::Intersect), max_desc_sets),
    {
        describe(GraphicsKind::Mask(MaskMode::Intersect), max_desc_sets)
    }

    /// The pipeline which masks an image in the mode `Lighten`.
    pub fn mask_lighten(max_desc_sets: usize) -> (desc: Option<GraphicsDesc>)
        ensures
            desc == plan(GraphicsKind::Mask(MaskMode::Lighten), max_desc_sets),
    {
        describe(GraphicsKind::Mask(MaskMode::Lighten), max_desc_sets)
    }

    /// The pipeline which masks an image in the mode `Subtract`.
    pub fn mask_subtract(max_desc_sets: usize) -> (desc: Option<GraphicsDesc>)
        ensures
            desc == plan(GraphicsKind::Mask(MaskMode::Subtract), max_desc_sets),
    {
        describe(GraphicsKind::Mask(MaskMode::Subtract), max_desc_sets)
    }

    /// The pipeline which mattes an image in the mode `Alpha`.
    pub fn matte_alpha(max_desc_sets: usize) -> (desc: Option<GraphicsDesc>)
        ensures
            desc == plan(GraphicsKind::Matte(MatteMode::Alpha), max_desc_sets),
    {
        describe(GraphicsKind::Matte(MatteMode::Alpha), max_desc_sets)
    }

    /// The pipeline which mattes an image in the mode `AlphaInv`.
    pub fn matte_alpha_inv(max_desc_sets: usize) -> (desc: Option<GraphicsDesc>)
        ensures
            desc == plan(GraphicsKind::Matte(MatteMode::AlphaInv), max_desc_sets),
    {
        describe(GraphicsKind::Matte(MatteMode::AlphaInv), max_desc_sets)
    }

    /// The pipeline which mattes an image in the mode `Luma`.
    pub fn matte_luma(max_desc_sets: usize) -> (desc: Option<GraphicsDesc>)
        ensures
            desc == plan(GraphicsKind::Matte(MatteMode::Luma), max_desc_sets),
    {
        describe(GraphicsKind::Matte(MatteMode::Luma), max_desc_sets)
    }

    /// The pipeline which mattes an image in the mode `LumaInv`.
    pub fn matte_luma_inv(max_desc_sets: usize) -> (desc: Option<GraphicsDesc>)
        ensures
            desc == plan(GraphicsKind::Matte(MatteMode::LumaInv), max_desc_sets),
    {
        describe(GraphicsKind::Matte(MatteMode::LumaInv), max_desc_sets)
    }

    /// The pipeline which presents an image.
    pub fn present(max_desc_sets: usize) -> (desc: Option<GraphicsDesc>)
        ensures
            desc == plan(GraphicsKind::Present, max_desc_sets),
    {
        describe(GraphicsKind::Present, max_desc_sets)
    }

    /// The pipeline which draws the skydome.
    pub fn skydome(max_desc_sets: usize) -> (desc: Option<GraphicsDesc>)
        ensures
            desc == plan(GraphicsKind::Skydome, max_desc_sets),
    {
        describe(GraphicsKind::Skydome, max_desc_sets)
    }

    /// The pipeline which draws a texture.
    pub fn texture(max_desc_sets: usize) -> (desc: Option<GraphicsDesc>)
        ensures
            desc == plan(GraphicsKind::Texture, max_desc_sets),
    {
        describe(GraphicsKind::Texture, max_desc_sets)
    }

    /// The descriptor set at `idx`.
    pub fn desc_set(&self, idx: usize) -> (set: u64)
        requires
            idx < self.sets().len(),
        ensures
            set == self.sets()[idx as int],
    {
        self.desc_sets[idx]
    }

    /// The number of descriptor sets.
    pub fn desc_set_count(&self) -> (count: usize)
        ensures
            count == self.sets().len(),
    {
        self.desc_sets.len()
    }

    /// The pipeline layout.
    pub fn layout(&self) -> (layout: u64)
        ensures
            layout == self.layout_handle(),
    {
        self.layout
    }

    /// The number of descriptor sets which the pipeline was made for.
    pub fn max_desc_sets(&self) -> (max: usize)
        ensures
            max == self.max_sets(),
    {
        self.max_desc_sets
    }

    /// The pipeline.
    pub fn pipeline(&self) -> (pipeline: u64)
        ensures
            pipeline == self.pipeline_handle(),
    {
        self.pipeline
    }

    /// The descriptor pool and the layout of its sets, which a reset of the pool takes.
    pub fn pool(&self) -> (pool: Option<(u64, u64)>)
        ensures
            pool is Some <==> self.has_pool(),
    {
        match (self.desc_pool, self.set_layout) {
            (Some(desc_pool), Some(set_layout)) => Some((desc_pool, set_layout)),
            _ => None,
        }
    }

    /// Takes the descriptor sets which the device has allocated after the descriptor pool
    /// was reset: each takes the place of the set which stood there. There have to be as
    /// many as before, and the pipeline has to have a pool.
    pub fn reset(&mut self, desc_sets: Vec<u64>)
        requires
            old(self).has_pool(),
            desc_sets@.len() == old(self).sets().len(),
        ensures
            final(self).sets() == desc_sets@,
            final(self).sampler_handles() == old(self).sampler_handles(),
            final(self).layout_handle() == old(self).layout_handle(),
            final(self).pipeline_handle() == old(self).pipeline_handle(),
            final(self).max_sets() == old(self).max_sets(),
            final(self).has_pool(),
    {
        self.desc_sets = desc_sets;
    }

    /// The sampler at `idx`.
    pub fn sampler(&self, idx: usize) -> (sampler: u64)
        requires
            idx < self.sampler_handles().len(),
        ensures
            sampler == self.sampler_handles()[idx as int],
    {
        self.samplers[idx]
    }

    /// The number of samplers.
    pub fn sampler_count(&self) -> (count: usize)
        ensures
            count == self.sampler_handles().len(),
    {
        self.samplers.len()
    }
}

} // verus!
