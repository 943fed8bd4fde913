use screen_13::gpu::def::graphics::{
    attribute_descs, describe, vertex_buf_with_stride, AttributeDesc, Attributes, BlendMode,
    BlendState, ColorMask, DescriptorRange, Format, Graphics, GraphicsDesc, GraphicsKind,
    ImageAccess, LogicOp, MaskMode, MatteMode, Primitive, PushConsts, Rasterizer, SetLayout,
    Shader, VertexBufferDesc, VertexLayout,
};

fn size(format: Format) -> u32 {
    match format {
        Format::Rg32Sfloat => 8,
        Format::Rgb32Sfloat => 12,
        Format::Rgba32Sfloat => 16,
    }
}

fn kinds() -> Vec<GraphicsKind> {
    vec![
        GraphicsKind::Blend(BlendMode::Normal),
        GraphicsKind::DrawLine,
        GraphicsKind::DrawMesh,
        GraphicsKind::DrawPointLight,
        GraphicsKind::DrawRectLight,
        GraphicsKind::DrawSpotlight,
        GraphicsKind::DrawSunlight,
        GraphicsKind::FontNormal,
        GraphicsKind::FontOutline,
        GraphicsKind::GradientLinearTrans,
        GraphicsKind::GradientLinear,
        GraphicsKind::Mask(MaskMode::Intersect),
        GraphicsKind::Matte(MatteMode::Luma),
        GraphicsKind::Present,
        GraphicsKind::Skydome,
        GraphicsKind::Texture,
    ]
}

#[test]
fn blending_reads_two_images_for_each_descriptor_set() {
    let desc = Graphics::blend_hard_light(5).unwrap();
    assert_eq!(
        desc,
        GraphicsDesc {
            vertex: Shader::BlendQuadTransformVert,
            fragment: Shader::BlendFrag(BlendMode::HardLight),
            set_layout: Some(SetLayout::Blend),
            push_consts: PushConsts::Blend,
            vertices: None,
            primitive: Primitive::TriangleList,
            rasterizer: Rasterizer::Fill,
            logic_op: Some(LogicOp::Copy),
            targets: 1,
            blend: Some(BlendState::PremultipliedAlpha),
            mask: ColorMask::All,
            depth: None,
            descriptors: Some(DescriptorRange {
                count: 10,
                access: ImageAccess::ReadOnly
            }),
            max_desc_sets: 5,
            samplers: 1,
        }
    );
    assert_eq!(
        Graphics::mask_subtract(5),
        Some(GraphicsDesc {
            fragment: Shader::MaskFrag(MaskMode::Subtract),
            ..desc
        })
    );
    assert_eq!(
        Graphics::matte_alpha_inv(5),
        Some(GraphicsDesc {
            fragment: Shader::MatteFrag(MatteMode::AlphaInv),
            ..desc
        })
    );
    assert_eq!(Graphics::blend_add(usize::MAX / 2 + 1), None);
    assert_eq!(
        Graphics::blend_add(usize::MAX / 2)
            .unwrap()
            .descriptors
            .unwrap()
            .count,
        usize::MAX - 1
    );
}

#[test]
fn lights_and_lines_have_no_descriptor_sets() {
    let light = Graphics::draw_point_light(0).unwrap();
    assert_eq!(light.fragment, Shader::PointLightFrag);
    assert_eq!(light.push_consts, PushConsts::DrawPointLight);
    assert_eq!(light.blend, Some(BlendState::Add));
    assert_eq!(light.mask, ColorMask::Red);
    assert_eq!(light.depth, Some(false));
    assert_eq!(light.descriptors, None);
    assert_eq!(light.samplers, 0);
    assert_eq!(
        light.vertices,
        Some(VertexLayout {
            attributes: Attributes::Vec3,
            stride: 12
        })
    );
    assert_eq!(
        Graphics::draw_rect_light(0).unwrap().fragment,
        Shader::RectLightFrag
    );
    assert_eq!(
        Graphics::draw_spotlight(0).unwrap().push_consts,
        PushConsts::DrawSpotlight
    );
    let line = Graphics::draw_line(0).unwrap();
    assert_eq!(line.primitive, Primitive::LineList);
    assert_eq!(line.rasterizer, Rasterizer::Line);
    assert_eq!(line.logic_op, Some(LogicOp::SetBits));
    assert_eq!(line.targets, 4);
    assert_eq!(line.blend, None);
    for max_desc_sets in [1, 2, usize::MAX] {
        assert_eq!(Graphics::draw_point_light(max_desc_sets), None);
        assert_eq!(Graphics::draw_rect_light(max_desc_sets), None);
        assert_eq!(Graphics::draw_spotlight(max_desc_sets), None);
        assert_eq!(Graphics::draw_line(max_desc_sets), None);
    }
    assert_eq!(Graphics::draw_sunlight(0), None);
}

#[test]
fn each_pipeline_has_its_descriptors_and_samplers() {
    let mesh = Graphics::draw_mesh(4).unwrap();
    assert_eq!(mesh.descriptors.unwrap().count, 12);
    assert_eq!(mesh.samplers, 3);
    assert_eq!(mesh.targets, 2);
    assert_eq!(mesh.depth, Some(true));
    assert_eq!(Graphics::draw_mesh(usize::MAX / 3 + 1), None);
    let font = Graphics::font_outline(4).unwrap();
    assert_eq!(font.descriptors.unwrap().count, 4);
    assert_eq!(font.fragment, Shader::FontOutlineFrag);
    assert_eq!(font.push_consts, PushConsts::FontOutline);
    assert_eq!(Graphics::font_normal(4).unwrap().fragment, Shader::FontFrag);
    assert_eq!(
        Graphics::gradient_linear(4),
        Graphics::gradient_linear_trans(4)
    );
    assert_eq!(
        Graphics::gradient_linear(4).unwrap().vertex,
        Shader::GradientVert
    );
    let present = Graphics::present(4).unwrap();
    assert_eq!(
        present.descriptors,
        Some(DescriptorRange {
            count: 4,
            access: ImageAccess::ReadWrite
        })
    );
    assert_eq!(present.blend, Some(BlendState::Alpha));
    let skydome = Graphics::skydome(4).unwrap();
    assert_eq!(skydome.descriptors.unwrap().count, 24);
    assert_eq!(skydome.samplers, 6);
    assert_eq!(skydome.mask, ColorMask::Color);
    assert_eq!(Graphics::skydome(usize::MAX / 6 + 1), None);
    let texture = Graphics::texture(4).unwrap();
    assert_eq!(texture.descriptors.unwrap().count, 1);
    assert_eq!(texture.vertex, Shader::QuadTransformVert);
    assert_eq!(texture.max_desc_sets, 4);
    assert_eq!(
        Graphics::texture(usize::MAX).unwrap().max_desc_sets,
        usize::MAX
    );
}

#[test]
fn the_attributes_of_every_pipeline_fit_its_stride() {
    for kind in kinds() {
        if let Some(layout) = describe(kind, 0).and_then(|desc| desc.vertices) {
            let descs = attribute_descs(layout.attributes);
            let mut end = 0;
            for (location, desc) in descs.iter().enumerate() {
                assert_eq!(desc.binding, 0);
                assert_eq!(desc.location, location as u32);
                assert_eq!(desc.offset, end);
                end += size(desc.format);
            }
            assert!(end <= layout.stride);
        }
    }
    assert_eq!(
        attribute_descs(Attributes::Vec3Vec3Vec4Vec2),
        vec![
            AttributeDesc {
                binding: 0,
                location: 0,
                format: Format::Rgb32Sfloat,
                offset: 0
            },
            AttributeDesc {
                binding: 0,
                location: 1,
                format: Format::Rgb32Sfloat,
                offset: 12
            },
            AttributeDesc {
                binding: 0,
                location: 2,
                format: Format::Rgba32Sfloat,
                offset: 24
            },
            AttributeDesc {
                binding: 0,
                location: 3,
                format: Format::Rg32Sfloat,
                offset: 40
            },
        ]
    );
    assert_eq!(attribute_descs(Attributes::Vec3Vec2)[1].offset, 12);
    assert_eq!(attribute_descs(Attributes::Vec3Vec3)[1].offset, 12);
    assert_eq!(attribute_descs(Attributes::Vec3Vec4)[1].offset, 12);
    assert_eq!(attribute_descs(Attributes::Vec2Vec2)[1].offset, 8);
    assert_eq!(
        vertex_buf_with_stride(48),
        VertexBufferDesc {
            binding: 0,
            stride: 48
        }
    );
}

#[test]
fn a_pipeline_is_put_together_from_what_its_description_asks_for() {
    let desc = Graphics::draw_mesh(2).unwrap();
    assert!(Graphics::assemble(&desc, 1, 2, None, vec![10, 11], vec![20, 21, 22]).is_none());
    assert!(Graphics::assemble(&desc, 1, 2, Some((3, 4)), vec![10], vec![20, 21, 22]).is_none());
    assert!(Graphics::assemble(&desc, 1, 2, Some((3, 4)), vec![10, 11], vec![20]).is_none());
    let mut graphics =
        Graphics::assemble(&desc, 1, 2, Some((3, 4)), vec![10, 11], vec![20, 21, 22]).unwrap();
    assert_eq!(graphics.pipeline(), 1);
    assert_eq!(graphics.layout(), 2);
    assert_eq!(graphics.pool(), Some((3, 4)));
    assert_eq!(graphics.max_desc_sets(), 2);
    assert_eq!(graphics.desc_set_count(), 2);
    assert_eq!(graphics.desc_set(1), 11);
    assert_eq!(graphics.sampler_count(), 3);
    assert_eq!(graphics.sampler(2), 22);
    graphics.reset(vec![30, 31]);
    assert_eq!(graphics.desc_set(0), 30);
    assert_eq!(graphics.desc_set(1), 31);
    assert_eq!(graphics.sampler(0), 20);

    let light = Graphics::draw_spotlight(0).unwrap();
    assert!(Graphics::assemble(&light, 1, 2, Some((3, 4)), vec![], vec![]).is_none());
    let graphics = Graphics::assemble(&light, 1, 2, None, vec![], vec![]).unwrap();
    assert_eq!(graphics.pool(), None);
    assert_eq!(graphics.desc_set_count(), 0);
}
