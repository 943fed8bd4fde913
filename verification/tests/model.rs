use screen_13::bake::model::{
    can_add_mesh, index_buf_len, index_type, next_batch, node_stride, push_indices, push_vertex,
    tri_mode, vertex_buf_len, Batch, IndexType, Mode, Skin, TriangleMode, Vertex, MAX_MESHES,
    SKINNED_STRIDE, STATIC_STRIDE,
};

#[test]
fn only_triangles_are_baked() {
    assert_eq!(tri_mode(Mode::Triangles), Some(TriangleMode::List));
    assert_eq!(tri_mode(Mode::TriangleStrip), Some(TriangleMode::Strip));
    assert_eq!(tri_mode(Mode::TriangleFan), Some(TriangleMode::Fan));
    for mode in [Mode::Points, Mode::Lines, Mode::LineLoop, Mode::LineStrip] {
        assert_eq!(tri_mode(mode), None);
    }
}

#[test]
fn a_skin_makes_a_vertex_longer() {
    assert_eq!(node_stride(false), 32);
    assert_eq!(node_stride(true), 56);
    assert_eq!(STATIC_STRIDE, 32);
    assert_eq!(SKINNED_STRIDE, 56);
    assert_eq!(vertex_buf_len(3, false), Some(96));
    assert_eq!(vertex_buf_len(3, true), Some(168));
    assert_eq!(vertex_buf_len(0, true), Some(0));
    assert_eq!(vertex_buf_len(usize::MAX / 32, false), Some(usize::MAX / 32 * 32));
    assert_eq!(vertex_buf_len(usize::MAX / 32 + 1, false), None);
}

#[test]
fn small_models_have_short_indices() {
    assert_eq!(index_type(0), IndexType::U16);
    assert_eq!(index_type(65535), IndexType::U16);
    assert_eq!(index_type(65536), IndexType::U32);
    assert_eq!(index_buf_len(12, IndexType::U16), Some(24));
    assert_eq!(index_buf_len(12, IndexType::U32), Some(48));
    assert_eq!(index_buf_len(usize::MAX / 2 + 1, IndexType::U16), None);
    assert_eq!(index_buf_len(usize::MAX / 4 + 1, IndexType::U32), None);
}

#[test]
fn a_model_has_a_limit_of_meshes() {
    assert_eq!(MAX_MESHES, u16::MAX as usize);
    assert!(can_add_mesh(0));
    assert!(can_add_mesh(65534));
    assert!(!can_add_mesh(65535));
}

#[test]
fn batches_follow_each_other() {
    assert_eq!(next_batch(0, 36), Some(Batch { start: 0, end: 36 }));
    assert_eq!(next_batch(36, 6), Some(Batch { start: 36, end: 42 }));
    assert_eq!(next_batch(42, 0), Some(Batch { start: 42, end: 42 }));
    assert_eq!(
        next_batch(u32::MAX - 1, 1),
        Some(Batch {
            start: u32::MAX - 1,
            end: u32::MAX
        })
    );
    assert_eq!(next_batch(u32::MAX, 1), None);
    assert_eq!(next_batch(1, u32::MAX as usize), None);
}

#[test]
fn indices_are_written_in_the_order_of_the_machine() {
    let indices = vec![0, 1, 0x0102, 0x0001_0203];
    let mut short = vec![0xaa];
    push_indices(&mut short, &indices, IndexType::U16);
    let mut expected = vec![0xaa];
    for index in &indices {
        expected.extend_from_slice(&(*index as u16).to_ne_bytes());
    }
    assert_eq!(short, expected);
    assert_eq!(short.len(), 1 + 2 * indices.len());
    // The high bytes of an index which does not fit are lost.
    assert_eq!(&short[7..9], &0x0203u16.to_ne_bytes());

    let mut long = Vec::new();
    push_indices(&mut long, &indices, IndexType::U32);
    let mut expected = Vec::new();
    for index in &indices {
        expected.extend_from_slice(&index.to_ne_bytes());
    }
    assert_eq!(long, expected);
    assert_eq!(long.len(), 4 * indices.len());
    push_indices(&mut long, &Vec::new(), IndexType::U32);
    assert_eq!(long, expected);
}

#[test]
fn a_vertex_takes_as_many_bytes_as_its_stride() {
    let vertex = Vertex {
        position: [1.0f32.to_bits(), 2.0f32.to_bits(), 3.0f32.to_bits()],
        normal: [0.0f32.to_bits(), 1.0f32.to_bits(), 0.0f32.to_bits()],
        tex_coord: [0.25f32.to_bits(), 0.75f32.to_bits()],
    };
    let skin = Skin {
        joints: [1, 2, 3, 0x0405],
        weights: [
            0.5f32.to_bits(),
            0.25f32.to_bits(),
            0.125f32.to_bits(),
            0.125f32.to_bits(),
        ],
    };
    let mut plain = vec![7, 7];
    push_vertex(&mut plain, &vertex, None);
    assert_eq!(plain.len(), 2 + node_stride(false));
    let mut expected = vec![7, 7];
    for float in [1.0f32, 2.0, 3.0, 0.0, 1.0, 0.0, 0.25, 0.75] {
        expected.extend_from_slice(&float.to_ne_bytes());
    }
    assert_eq!(plain, expected);

    let mut skinned = Vec::new();
    push_vertex(&mut skinned, &vertex, Some(&skin));
    assert_eq!(skinned.len(), node_stride(true));
    assert_eq!(&skinned[..32], &expected[2..]);
    let mut rest = Vec::new();
    for joint in [1u16, 2, 3, 0x0405] {
        rest.extend_from_slice(&joint.to_ne_bytes());
    }
    for weight in [0.5f32, 0.25, 0.125, 0.125] {
        rest.extend_from_slice(&weight.to_ne_bytes());
    }
    assert_eq!(&skinned[32..], &rest[..]);
}
