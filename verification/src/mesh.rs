//! The one mesh that every instance is drawn with: a unit quad about the
//! origin, as two triangles.

use crate::bytes::{is_memory_of, words_as_bytes};
use crate::instance::{AttributeFormat, StepMode, VertexAttribute, VertexBufferLayout};
use crate::math::{Scalar, Vec2, HALF_BITS, NEG_HALF_BITS, ZERO_BITS};
use vstd::prelude::*;

verus! {

/// The number of indices that one quad is drawn with.
pub const QUAD_INDEX_COUNT: u32 = 6;

/// The number of bytes in one vertex: three numbers.
pub const VERTEX_STRIDE: u64 = 12;

/// The corner at `(x, y)`, in contracts.
pub open spec fn corner(x: u32, y: u32) -> Vec2 {
    Vec2 { x: Scalar { bits: x }, y: Scalar { bits: y } }
}

/// The four corners of the quad in local space, counter-clockwise from the
/// lower left: `(-0.5, -0.5)`, `(0.5, -0.5)`, `(0.5, 0.5)`, `(-0.5, 0.5)`.
pub open spec fn quad_corners() -> Seq<Vec2> {
    seq![
        corner(NEG_HALF_BITS, NEG_HALF_BITS),
        corner(HALF_BITS, NEG_HALF_BITS),
        corner(HALF_BITS, HALF_BITS),
        corner(NEG_HALF_BITS, HALF_BITS),
    ]
}

/// The words of a vertex buffer over `corners`: for each corner its two
/// coordinates and a zero for the depth.
pub open spec fn vertex_words(corners: Seq<Vec2>) -> Seq<u32>
    decreases corners.len(),
{
    if corners.len() == 0 {
        Seq::empty()
    } else {
        vertex_words(corners.drop_last()) + seq![
            corners.last().x.bits,
            corners.last().y.bits,
            ZERO_BITS,
        ]
    }
}

/// The corners of the quad.
pub fn quad_vertices() -> (corners: Vec<Vec2>)
    ensures
        corners@ == quad_corners(),
{
    let lo = Scalar::from_bits(NEG_HALF_BITS);
    let hi = Scalar::from_bits(HALF_BITS);
    let mut corners: Vec<Vec2> = Vec::new();
    corners.push(Vec2 { x: lo, y: lo });
    corners.push(Vec2 { x: hi, y: lo });
    corners.push(Vec2 { x: hi, y: hi });
    corners.push(Vec2 { x: lo, y: hi });
    corners
}

/// The indices of the quad's two triangles: `0, 1, 2` and `0, 2, 3`.
pub fn quad_indices() -> (indices: Vec<u16>)
    ensures
        indices@ == seq![0u16, 1u16, 2u16, 0u16, 2u16, 3u16],
        indices@.len() == QUAD_INDEX_COUNT,
{
    let mut indices: Vec<u16> = Vec::new();
    indices.push(0);
    indices.push(1);
    indices.push(2);
    indices.push(0);
    indices.push(2);
    indices.push(3);
    indices
}

/// The bytes of the quad's vertex buffer.
pub fn quad_vertex_bytes() -> (bytes: Vec<u8>)
    ensures
        bytes@.len() == 4 * VERTEX_STRIDE,
        is_memory_of(bytes@, vertex_words(quad_corners())),
{
    let corners = quad_vertices();
    let mut words: Vec<u32> = Vec::new();
    let mut i: usize = 0;
    while i < corners.len()
        invariant
            i <= corners@.len(),
            corners@.len() == 4,
            words@ == vertex_words(corners@.take(i as int)),
            words@.len() == 3 * i,
        decreases corners@.len() - i,
    {
        words.push(corners[i].x.bits);
        words.push(corners[i].y.bits);
        words.push(ZERO_BITS);
        proof {
            let next = corners@.take(i + 1);
            assert(next.drop_last() == corners@.take(i as int));
            assert(next.last() == corners@[i as int]);
        }
        i = i + 1;
    }
    proof {
        assert(corners@.take(corners@.len() as int) == corners@);
    }
    words_as_bytes(&words)
}

/// The layout of the quad's vertex buffer: one vertex of three numbers at
/// shader location zero.
pub fn quad_layout() -> (layout: VertexBufferLayout)
    ensures
        layout.array_stride == VERTEX_STRIDE,
        layout.step_mode == StepMode::Vertex,
        layout.attributes@ == seq![
            VertexAttribute { offset: 0, shader_location: 0, format: AttributeFormat::Three },
        ],
{
    let mut attributes: Vec<VertexAttribute> = Vec::new();
    attributes.push(
        VertexAttribute { offset: 0, shader_location: 0, format: AttributeFormat::Three },
    );
    VertexBufferLayout { array_stride: VERTEX_STRIDE, step_mode: StepMode::Vertex, attributes }
}

} // verus!
