use ash::vk;
use screen_13::driver::graphic_pipeline::{
    DepthStencilMode, GraphicPipelineInfo, RasterizationState, StencilMode, StencilOpState,
};
use screen_13::driver::image::SampleCount;

#[test]
fn the_stencil_mode_which_does_nothing_keeps_and_passes() {
    assert_eq!(StencilMode::default(), StencilMode::Noop);
    assert_eq!(
        StencilMode::Noop.into_vk(),
        StencilOpState {
            fail_op: vk::StencilOp::KEEP.as_raw(),
            pass_op: vk::StencilOp::KEEP.as_raw(),
            depth_fail_op: vk::StencilOp::KEEP.as_raw(),
            compare_op: vk::CompareOp::ALWAYS.as_raw(),
            compare_mask: 0,
            write_mask: 0,
            reference: 0,
        }
    );
}

#[test]
fn the_default_depth_mode_tests_and_writes_depth() {
    let mode = DepthStencilMode::default();
    assert_eq!(
        mode.compare_op,
        ash::vk::CompareOp::GREATER_OR_EQUAL.as_raw()
    );
    assert_eq!(f32::from_bits(mode.min), 0.0);
    assert_eq!(f32::from_bits(mode.max), 1.0);
    let state = mode.into_vk();
    assert_eq!(state.depth_test_enable, 1);
    assert_eq!(state.depth_write_enable, 1);
    assert_eq!(state.depth_bounds_test_enable, 0);
    assert_eq!(state.stencil_test_enable, 0);
    assert_eq!(state.min_depth_bounds, 0.0f32.to_bits());
    assert_eq!(state.max_depth_bounds, 1.0f32.to_bits());
    assert_eq!(state.front, StencilMode::Noop.into_vk());
    assert_eq!(state.back, StencilMode::Noop.into_vk());
    let other = DepthStencilMode {
        bounds_test: true,
        depth_test: false,
        depth_write: false,
        stencil_test: true,
        compare_op: 1,
        min: 0.25f32.to_bits(),
        max: 0.5f32.to_bits(),
        ..mode
    }
    .into_vk();
    assert_eq!(other.depth_bounds_test_enable, 1);
    assert_eq!(other.depth_test_enable, 0);
    assert_eq!(other.depth_write_enable, 0);
    assert_eq!(other.stencil_test_enable, 1);
    assert_eq!(other.depth_compare_op, 1);
    assert_eq!(f32::from_bits(other.min_depth_bounds), 0.25);
    assert_eq!(f32::from_bits(other.max_depth_bounds), 0.5);
}

#[test]
fn a_pipeline_description_has_defaults_for_every_field() {
    let info = GraphicPipelineInfo::new().build();
    assert_eq!(info, GraphicPipelineInfo::default());
    assert_eq!(info.depth_stencil, None);
    assert_eq!(info.samples, SampleCount::X1);
    assert!(!info.two_sided);
    let info = GraphicPipelineInfo::new()
        .two_sided(true)
        .samples(SampleCount::X4)
        .depth_stencil(Some(DepthStencilMode::default()))
        .build();
    assert!(info.two_sided);
    assert_eq!(info.samples, SampleCount::X4);
    assert_eq!(info.depth_stencil, Some(DepthStencilMode::default()));
}

#[test]
fn only_a_one_sided_pipeline_culls() {
    let one_sided = GraphicPipelineInfo::default().rasterization_state();
    assert_eq!(
        one_sided,
        RasterizationState {
            topology: vk::PrimitiveTopology::TRIANGLE_LIST.as_raw(),
            front_face: vk::FrontFace::COUNTER_CLOCKWISE.as_raw(),
            polygon_mode: vk::PolygonMode::FILL.as_raw(),
            cull_mode: vk::CullModeFlags::BACK.as_raw(),
            rasterization_samples: SampleCount::X1,
        }
    );
    let two_sided = GraphicPipelineInfo::new()
        .two_sided(true)
        .samples(SampleCount::X2)
        .build()
        .rasterization_state();
    assert_eq!(two_sided.cull_mode, vk::CullModeFlags::NONE.as_raw());
    assert_eq!(two_sided.rasterization_samples, SampleCount::X2);
}

#[test]
fn the_stages_of_a_pipeline_are_those_of_all_its_shaders() {
    assert_eq!(GraphicPipelineInfo::shader_stages(&vec![]), 0);
    assert_eq!(GraphicPipelineInfo::shader_stages(&vec![0x1, 0x10]), 0x11);
    assert_eq!(
        GraphicPipelineInfo::shader_stages(&vec![0x1, 0x10, 0x11, 0x8]),
        0x19
    );
}
