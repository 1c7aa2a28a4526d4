//! Byte layouts shared with the shaders: the interleaved vertex format and
//! the uniform block of three matrices.
use vstd::prelude::*;

verus! {

/// Raw value of the format `R32G32_SFLOAT`: two 32-bit floats.
pub const FORMAT_R32G32_SFLOAT: i32 = 103;

/// Raw value of the format `R32G32B32_SFLOAT`: three 32-bit floats.
pub const FORMAT_R32G32B32_SFLOAT: i32 = 106;

/// Bytes of one vertex: position, color and texture coordinate, packed.
pub const VERTEX_STRIDE: u32 = 32;

/// Bytes of one column-major 4x4 matrix of 32-bit floats.
pub const MATRIX_SIZE: u64 = 64;

/// Bytes of the uniform block: model, view and projection matrices, with no
/// padding.
pub const UNIFORM_BLOCK_SIZE: u64 = 192;

/// Where one vertex attribute is read from.
#[derive(Clone, Copy, Debug, PartialEq, Eq, Structural)]
pub struct VertexAttribute {
    pub location: u32,
    pub binding: u32,
    pub format: i32,
    pub offset: u32,
}

/// Bytes taken by an attribute of format `format`.
pub open spec fn format_size(format: i32) -> nat {
    if format == FORMAT_R32G32B32_SFLOAT {
        12
    } else if format == FORMAT_R32G32_SFLOAT {
        8
    } else {
        0
    }
}

/// Position (three floats), color (three floats) and texture coordinate
/// (two floats), in that order, from binding 0.
pub open spec fn vertex_attributes_spec() -> Seq<VertexAttribute> {
    seq![
        VertexAttribute { location: 0, binding: 0, format: FORMAT_R32G32B32_SFLOAT, offset: 0 },
        VertexAttribute { location: 1, binding: 0, format: FORMAT_R32G32B32_SFLOAT, offset: 12 },
        VertexAttribute { location: 2, binding: 0, format: FORMAT_R32G32_SFLOAT, offset: 24 },
    ]
}

/// Returns the vertex attributes, in shader location order.
pub fn vertex_attribute_descriptions() -> (r: Vec<VertexAttribute>)
    ensures
        r@ == vertex_attributes_spec(),
{
    let mut r: Vec<VertexAttribute> = Vec::new();
    r.push(VertexAttribute { location: 0, binding: 0, format: FORMAT_R32G32B32_SFLOAT, offset: 0 });
    r.push(VertexAttribute { location: 1, binding: 0, format: FORMAT_R32G32B32_SFLOAT, offset: 12 });
    r.push(VertexAttribute { location: 2, binding: 0, format: FORMAT_R32G32_SFLOAT, offset: 24 });
    proof {
        assert(r@ =~= vertex_attributes_spec());
    }
    r
}

/// The byte offsets of the model, view and projection matrices in the
/// uniform block.
pub fn uniform_matrix_offsets() -> (r: Vec<u64>)
    ensures
        r@ == seq![0u64, MATRIX_SIZE, 128u64],
{
    let mut r: Vec<u64> = Vec::new();
    r.push(0);
    r.push(MATRIX_SIZE);
    r.push(2 * MATRIX_SIZE);
    proof {
        assert(r@ =~= seq![0u64, MATRIX_SIZE, 128u64]);
    }
    r
}

/// The vertex is tightly packed: each attribute starts where the previous
/// one ends, the first at zero, and the last ends at the stride. The
/// uniform block is its three matrices back to back.
pub proof fn lemma_layouts_packed(i: int)
    requires
        0 < i < 3,
    ensures
        vertex_attributes_spec()[0].offset == 0,
        vertex_attributes_spec()[i].offset == vertex_attributes_spec()[i - 1].offset
            + format_size(vertex_attributes_spec()[i - 1].format),
        vertex_attributes_spec()[2].offset + format_size(vertex_attributes_spec()[2].format)
            == VERTEX_STRIDE,
        vertex_attributes_spec()[i].location == i,
        3 * MATRIX_SIZE == UNIFORM_BLOCK_SIZE,
{
}

} // verus!
