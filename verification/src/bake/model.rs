//! Packing the meshes of a model into one index buffer and one vertex buffer.
//!
//! Numbers are written in the byte order of the machine. Floats are taken by their bits.

use vstd::prelude::*;

verus! {

/// How the vertices of a primitive are put together.
#[derive(Clone, Copy, Debug, PartialEq, Eq, Hash, Structural)]
pub enum Mode {
    Points,
    Lines,
    LineLoop,
    LineStrip,
    Triangles,
    TriangleStrip,
    TriangleFan,
}

/// How the vertices of a primitive make triangles.
#[derive(Clone, Copy, Debug, PartialEq, Eq, Hash, Structural)]
pub enum TriangleMode {
    Fan,
    List,
    Strip,
}

/// The width of the indices of a model.
#[derive(Clone, Copy, Debug, PartialEq, Eq, Hash, Structural)]
pub enum IndexType {
    U16,
    U32,
}

/// The most meshes which a model can have.
pub const MAX_MESHES: usize = 65535;

/// The number of bytes of a vertex with a position, a normal and a texture coordinate.
pub const STATIC_STRIDE: usize = 32;

/// The number of bytes of a vertex which has four joints and four weights too.
pub const SKINNED_STRIDE: usize = 56;

/// A vertex of a mesh. Each float is held by its bits.
#[derive(Clone, Copy, Debug, PartialEq, Eq, Hash)]
pub struct Vertex {
    pub position: [u32; 3],
    pub normal: [u32; 3],
    pub tex_coord: [u32; 2],
}

/// The joints which move a vertex, and how much each of them does. Each weight is held by the
/// bits of its float.
#[derive(Clone, Copy, Debug, PartialEq, Eq, Hash)]
pub struct Skin {
    pub joints: [u16; 4],
    pub weights: [u32; 4],
}

/// The indices which one primitive takes in the index buffer of its model: from `start` up
/// to, but not including, `end`.
#[derive(Clone, Copy, Debug, PartialEq, Eq, Hash, Structural)]
pub struct Batch {
    pub start: u32,
    pub end: u32,
}

/// The two bytes of a number, the low one first.
pub open spec fn le_bytes_u16(x: u16) -> Seq<u8> {
    seq![(x & 0xff) as u8, ((x >> 8) & 0xff) as u8]
}

/// The four bytes of a number, the lowest one first.
pub open spec fn le_bytes_u32(x: u32) -> Seq<u8> {
    seq![
        (x & 0xff) as u8,
        ((x >> 8) & 0xff) as u8,
        ((x >> 16) & 0xff) as u8,
        ((x >> 24) & 0xff) as u8,
    ]
}

/// Whether `bytes` are the bytes `low_first` in the order of some machine: the low one first
/// or the low one last.
pub open spec fn in_machine_order(bytes: Seq<u8>, low_first: Seq<u8>) -> bool {
    bytes == low_first || bytes == low_first.reverse()
}

/// The bytes of a number in the order of this machine, as `u16::to_ne_bytes` of the
/// standard library gives them: its two bytes, the low one first or last.
#[verifier::external_body]
fn u16_ne_bytes(x: u16) -> (bytes: Vec<u8>)
    ensures
        in_machine_order(bytes@, le_bytes_u16(x)),
{
    x.to_ne_bytes().to_vec()
}

/// The bytes of a number in the order of this machine, as `u32::to_ne_bytes` of the
/// standard library gives them: its four bytes, the lowest one first or last.
#[verifier::external_body]
fn u32_ne_bytes(x: u32) -> (bytes: Vec<u8>)
    ensures
        in_machine_order(bytes@, le_bytes_u32(x)),
{
    x.to_ne_bytes().to_vec()
}

/// How a primitive makes triangles, if it makes any.
pub fn tri_mode(mode: Mode) -> (triangles: Option<TriangleMode>)
    ensures
        triangles == match mode {
            Mode::TriangleFan => Some(TriangleMode::Fan),
            Mode::Triangles => Some(TriangleMode::List),
            Mode::TriangleStrip => Some(TriangleMode::Strip),
            _ => None,
        },
{
    match mode {
        Mode::TriangleFan => Some(TriangleMode::Fan),
        Mode::Triangles => Some(TriangleMode::List),
        Mode::TriangleStrip => Some(TriangleMode::Strip),
        _ => None,
    }
}

/// The number of bytes of each vertex of a node, which depends on whether it has a skin.
pub fn node_stride(skinned: bool) -> (stride: usize)
    ensures
        stride == if skinned {
            SKINNED_STRIDE
        } else {
            STATIC_STRIDE
        },
{
    if skinned {
        56
    } else {
        32
    }
}

/// The width of the indices of a model with `vertex_count` vertices: two bytes for as many
/// vertices as two bytes can count, four bytes for more.
pub fn index_type(vertex_count: usize) -> (ty: IndexType)
    ensures
        ty == if vertex_count <= 0xffff {
            IndexType::U16
        } else {
            IndexType::U32
        },
{
    if vertex_count <= 0xffff {
        IndexType::U16
    } else {
        IndexType::U32
    }
}

/// The number of bytes of an index.
pub open spec fn index_size(ty: IndexType) -> nat {
    match ty {
        IndexType::U16 => 2,
        IndexType::U32 => 4,
    }
}

/// The number of bytes of `index_count` indices; `None` where that is more than a buffer
/// can hold.
pub fn index_buf_len(index_count: usize, ty: IndexType) -> (len: Option<usize>)
    ensures
        len is Some <==> index_count * index_size(ty) <= usize::MAX,
        len is Some ==> len->0 == index_count * index_size(ty),
{
    match ty {
        IndexType::U16 => index_count.checked_mul(2),
        IndexType::U32 => index_count.checked_mul(4),
    }
}

/// The number of bytes of `vertex_count` vertices of a node; `None` where that is more than
/// a buffer can hold.
pub fn vertex_buf_len(vertex_count: usize, skinned: bool) -> (len: Option<usize>)
    ensures
        len is Some <==> vertex_count * if skinned {
            SKINNED_STRIDE
        } else {
            STATIC_STRIDE
        } <= usize::MAX,
        len is Some ==> len->0 == vertex_count * if skinned {
            SKINNED_STRIDE
        } else {
            STATIC_STRIDE
        },
{
    vertex_count.checked_mul(node_stride(skinned))
}

/// Whether a model with `mesh_count` meshes can take one more.
pub fn can_add_mesh(mesh_count: usize) -> (can: bool)
    ensures
        can == (mesh_count < MAX_MESHES),
{
    mesh_count < MAX_MESHES
}

/// The batch of a primitive with `len` indices, where `index_count` indices of the model
/// come before it; `None` where the model would have more indices than four bytes can
/// count.
pub fn next_batch(index_count: u32, len: usize) -> (batch: Option<Batch>)
    ensures
        batch is Some <==> index_count + len <= u32::MAX,
        batch is Some ==> batch->0.start == index_count && batch->0.end == index_count + len,
{
    if len > 0xffff_ffff {
        return None;
    }
    match index_count.checked_add(len as u32) {
        Some(end) => Some(Batch { start: index_count, end }),
        None => None,
    }
}

/// What an index is written as: itself where indices have four bytes, its two low bytes
/// where they have two.
pub open spec fn index_bytes(index: u32, ty: IndexType) -> Seq<u8> {
    match ty {
        IndexType::U16 => le_bytes_u16((index & 0xffff) as u16),
        IndexType::U32 => le_bytes_u32(index),
    }
}

/// Adds the indices of a primitive to the index buffer of its model, each with the width
/// `ty`, in the byte order of the machine. An index which does not fit into the width loses
/// its high bytes.
pub fn push_indices(index_buf: &mut Vec<u8>, indices: &Vec<u32>, ty: IndexType)
    ensures
        final(index_buf)@.len() == old(index_buf)@.len() + indices@.len() * index_size(ty),
        final(index_buf)@.subrange(0, old(index_buf)@.len() as int) == old(index_buf)@,
        forall|i: int|
            0 <= i < indices@.len() ==> in_machine_order(
                #[trigger] final(index_buf)@.subrange(
                    old(index_buf)@.len() + i * index_size(ty),
                    old(index_buf)@.len() + (i + 1) * index_size(ty),
                ),
                index_bytes(indices@[i], ty),
            ),
{
    let ghost before = index_buf@;
    let ghost size = index_size(ty) as int;
    let mut i: usize = 0;
    while i < indices.len()
        invariant
            i <= indices@.len(),
            size == index_size(ty),
            index_buf@.len() == before.len() + i * size,
            index_buf@.subrange(0, before.len() as int) == before,
            forall|j: int|
                0 <= j < i ==> in_machine_order(
                    #[trigger] index_buf@.subrange(
                        before.len() + j * size,
                        before.len() + (j + 1) * size,
                    ),
                    index_bytes(indices@[j], ty),
                ),
        decreases indices@.len() - i,
    {
        let index = indices[i];
        let ghost filled = index_buf@;
        let bytes = match ty {
            IndexType::U16 => {
                let low = (index & 0xffff) as u16;
                u16_ne_bytes(low)
            },
            IndexType::U32 => u32_ne_bytes(index),
        };
        assert(bytes@.len() == size);
        index_buf.extend_from_slice(bytes.as_slice());
        proof {
            assert(index_buf@ == filled + bytes@);
            assert(index_buf@.subrange(0, before.len() as int) =~= before);
            assert(index_buf@.subrange(before.len() + i * size, before.len() + (i + 1) * size)
                =~= bytes@);
            assert forall|j: int| 0 <= j < i + 1 implies in_machine_order(
                #[trigger] index_buf@.subrange(
                    before.len() + j * size,
                    before.len() + (j + 1) * size,
                ),
                index_bytes(indices@[j], ty),
            ) by {
                if j < i {
                    assert((j + 1) * size <= i * size) by (nonlinear_arith)
                        requires
                            j < i,
                            size > 0,
                    ;
                    assert(0 <= j * size) by (nonlinear_arith)
                        requires
                            j >= 0,
                            size > 0,
                    ;
                    assert(index_buf@.subrange(
                        before.len() + j * size,
                        before.len() + (j + 1) * size,
                    ) =~= filled.subrange(before.len() + j * size, before.len() + (j + 1) * size));
                }
            }
            assert((i + 1) * size == i * size + size) by (nonlinear_arith);
        }
        i += 1;
    }
}

/// The floats and joints of a vertex in the order in which they are written: position,
/// normal, texture coordinate, and for a vertex with a skin its joints and weights.
pub open spec fn vertex_words(vertex: Vertex, skin: Option<Skin>) -> Seq<Seq<u8>> {
    let fixed = Seq::<Seq<u8>>::empty().push(le_bytes_u32(vertex.position@[0])).push(
        le_bytes_u32(vertex.position@[1]),
    ).push(le_bytes_u32(vertex.position@[2])).push(le_bytes_u32(vertex.normal@[0])).push(
        le_bytes_u32(vertex.normal@[1]),
    ).push(le_bytes_u32(vertex.normal@[2])).push(le_bytes_u32(vertex.tex_coord@[0])).push(
        le_bytes_u32(vertex.tex_coord@[1]),
    );
    match skin {
        None => fixed,
        Some(skin) => fixed.push(le_bytes_u16(skin.joints@[0])).push(
            le_bytes_u16(skin.joints@[1]),
        ).push(le_bytes_u16(skin.joints@[2])).push(le_bytes_u16(skin.joints@[3])).push(
            le_bytes_u32(skin.weights@[0]),
        ).push(le_bytes_u32(skin.weights@[1])).push(le_bytes_u32(skin.weights@[2])).push(
            le_bytes_u32(skin.weights@[3]),
        ),
    }
}

/// Whether `bytes` are the numbers `words` one after the other, each in the order of some
/// machine.
pub open spec fn written(bytes: Seq<u8>, words: Seq<Seq<u8>>) -> bool
    decreases words.len(),
{
    if words.len() == 0 {
        bytes.len() == 0
    } else {
        let last = words.last();
        &&& bytes.len() >= last.len()
        &&& in_machine_order(bytes.subrange(bytes.len() - last.len(), bytes.len() as int), last)
        &&& written(bytes.subrange(0, bytes.len() - last.len()), words.drop_last())
    }
}

fn push_u32(buf: &mut Vec<u8>, x: u32, Ghost(start): Ghost<int>, Ghost(words): Ghost<Seq<Seq<u8>>>)
    requires
        0 <= start <= old(buf)@.len(),
        written(old(buf)@.subrange(start, old(buf)@.len() as int), words),
    ensures
        final(buf)@.len() == old(buf)@.len() + 4,
        final(buf)@.subrange(0, old(buf)@.len() as int) == old(buf)@,
        written(
            final(buf)@.subrange(start, final(buf)@.len() as int),
            words.push(le_bytes_u32(x)),
        ),
{
    let ghost before = buf@;
    let bytes = u32_ne_bytes(x);
    buf.extend_from_slice(bytes.as_slice());
    proof {
        let all = buf@.subrange(start, buf@.len() as int);
        let more = words.push(le_bytes_u32(x));
        assert(buf@ == before + bytes@);
        assert(buf@.subrange(0, before.len() as int) =~= before);
        assert(all.subrange(all.len() - 4, all.len() as int) =~= bytes@);
        assert(all.subrange(0, all.len() - 4) =~= before.subrange(start, before.len() as int));
        assert(more.drop_last() =~= words);
    }
}

fn push_u16(buf: &mut Vec<u8>, x: u16, Ghost(start): Ghost<int>, Ghost(words): Ghost<Seq<Seq<u8>>>)
    requires
        0 <= start <= old(buf)@.len(),
        written(old(buf)@.subrange(start, old(buf)@.len() as int), words),
    ensures
        final(buf)@.len() == old(buf)@.len() + 2,
        final(buf)@.subrange(0, old(buf)@.len() as int) == old(buf)@,
        written(
            final(buf)@.subrange(start, final(buf)@.len() as int),
            words.push(le_bytes_u16(x)),
        ),
{
    let ghost before = buf@;
    let bytes = u16_ne_bytes(x);
    buf.extend_from_slice(bytes.as_slice());
    proof {
        let all = buf@.subrange(start, buf@.len() as int);
        let more = words.push(le_bytes_u16(x));
        assert(buf@ == before + bytes@);
        assert(buf@.subrange(0, before.len() as int) =~= before);
        assert(all.subrange(all.len() - 2, all.len() as int) =~= bytes@);
        assert(all.subrange(0, all.len() - 2) =~= before.subrange(start, before.len() as int));
        assert(more.drop_last() =~= words);
    }
}

/// Adds a vertex to the vertex buffer of its model: its position, its normal and its
/// texture coordinate, and for a vertex with a skin its joints and weights, each number in
/// the byte order of the machine. It takes as many bytes as [`node_stride`] says.
pub fn push_vertex(vertex_buf: &mut Vec<u8>, vertex: &Vertex, skin: Option<&Skin>)
    ensures
        final(vertex_buf)@.len() == old(vertex_buf)@.len() + if skin is Some {
            SKINNED_STRIDE
        } else {
            STATIC_STRIDE
        },
        final(vertex_buf)@.subrange(0, old(vertex_buf)@.len() as int) == old(vertex_buf)@,
        written(
            final(vertex_buf)@.subrange(
                old(vertex_buf)@.len() as int,
                final(vertex_buf)@.len() as int,
            ),
            vertex_words(
                *vertex,
                match skin {
                    Some(skin) => Some(*skin),
                    None => None,
                },
            ),
        ),
{
    let ghost before = vertex_buf@;
    let ghost start = before.len() as int;
    let ghost mut words: Seq<Seq<u8>> = Seq::empty();
    assert(vertex_buf@.subrange(start, start).len() == 0);
    push_u32(vertex_buf, vertex.position[0], Ghost(start), Ghost(words));
    proof {
        words = words.push(le_bytes_u32(vertex.position@[0]));
    }
    push_u32(vertex_buf, vertex.position[1], Ghost(start), Ghost(words));
    proof {
        words = words.push(le_bytes_u32(vertex.position@[1]));
    }
    push_u32(vertex_buf, vertex.position[2], Ghost(start), Ghost(words));
    proof {
        words = words.push(le_bytes_u32(vertex.position@[2]));
    }
    push_u32(vertex_buf, vertex.normal[0], Ghost(start), Ghost(words));
    proof {
        words = words.push(le_bytes_u32(vertex.normal@[0]));
    }
    push_u32(vertex_buf, vertex.normal[1], Ghost(start), Ghost(words));
    proof {
        words = words.push(le_bytes_u32(vertex.normal@[1]));
    }
    push_u32(vertex_buf, vertex.normal[2], Ghost(start), Ghost(words));
    proof {
        words = words.push(le_bytes_u32(vertex.normal@[2]));
    }
    push_u32(vertex_buf, vertex.tex_coord[0], Ghost(start), Ghost(words));
    proof {
        words = words.push(le_bytes_u32(vertex.tex_coord@[0]));
    }
    push_u32(vertex_buf, vertex.tex_coord[1], Ghost(start), Ghost(words));
    proof {
        words = words.push(le_bytes_u32(vertex.tex_coord@[1]));
        assert(words == vertex_words(*vertex, None));
    }
    match skin {
        None => {},
        Some(skin) => {
            push_u16(vertex_buf, skin.joints[0], Ghost(start), Ghost(words));
            proof {
                words = words.push(le_bytes_u16(skin.joints@[0]));
            }
            push_u16(vertex_buf, skin.joints[1], Ghost(start), Ghost(words));
            proof {
                words = words.push(le_bytes_u16(skin.joints@[1]));
            }
            push_u16(vertex_buf, skin.joints[2], Ghost(start), Ghost(words));
            proof {
                words = words.push(le_bytes_u16(skin.joints@[2]));
            }
            push_u16(vertex_buf, skin.joints[3], Ghost(start), Ghost(words));
            proof {
                words = words.push(le_bytes_u16(skin.joints@[3]));
            }
            push_u32(vertex_buf, skin.weights[0], Ghost(start), Ghost(words));
            proof {
                words = words.push(le_bytes_u32(skin.weights@[0]));
            }
            push_u32(vertex_buf, skin.weights[1], Ghost(start), Ghost(words));
            proof {
                words = words.push(le_bytes_u32(skin.weights@[1]));
            }
            push_u32(vertex_buf, skin.weights[2], Ghost(start), Ghost(words));
            proof {
                words = words.push(le_bytes_u32(skin.weights@[2]));
            }
            push_u32(vertex_buf, skin.weights[3], Ghost(start), Ghost(words));
            proof {
                words = words.push(le_bytes_u32(skin.weights@[3]));
                assert(words == vertex_words(*vertex, Some(*skin)));
            }
        },
    }
    proof {
        assert(vertex_buf@.subrange(0, before.len() as int) =~= before);
    }
}

} // verus!
