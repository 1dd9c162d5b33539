//! Vertex layout and the static demo geometry.
//!
//! A vertex is two four-component vectors of 32-bit floating-point words:
//! a position and a color. Verified code never computes with the numeric
//! values, so each word is carried as its IEEE-754 bit pattern; the GPU and
//! the shader read the same 32 bytes either way.

use vstd::prelude::*;

verus! {

/// Bit pattern of floating-point one.
pub const F_ONE: u32 = 0x3F80_0000;

/// Bit pattern of floating-point negative one.
pub const F_NEG_ONE: u32 = 0xBF80_0000;

/// Bit pattern of floating-point zero.
pub const F_ZERO: u32 = 0x0000_0000;

/// Bytes per vertex: eight 32-bit words.
pub const VERTEX_STRIDE: u64 = 32;

/// Byte offset of the color attribute inside a vertex: after the four
/// position words.
pub const COLOR_OFFSET: u64 = 16;

/// A single vertex: position `[x, y, z, w]` and color `[r, g, b, a]`,
/// each word an IEEE-754 single-precision bit pattern.
pub struct Vertex {
    pub position: [u32; 4],
    pub color: [u32; 4],
}

/// The little-endian byte encoding of one 32-bit word.
pub open spec fn u32_le_bytes(x: u32) -> Seq<u8> {
    seq![
        (x & 0xff) as u8,
        ((x >> 8) & 0xff) as u8,
        ((x >> 16) & 0xff) as u8,
        ((x >> 24) & 0xff) as u8,
    ]
}

/// Appends the four little-endian bytes of `x` to `out`.
pub fn push_u32_le(out: &mut Vec<u8>, x: u32)
    ensures
        final(out)@ == old(out)@ + u32_le_bytes(x),
{
    out.push((x & 0xff) as u8);
    out.push(((x >> 8) & 0xff) as u8);
    out.push(((x >> 16) & 0xff) as u8);
    out.push(((x >> 24) & 0xff) as u8);
    proof {
        assert(out@ =~= old(out)@ + u32_le_bytes(x));
    }
}

/// The 32-byte encoding of a vertex: the position words then the color
/// words, each little-endian.
pub open spec fn vertex_bytes(v: Vertex) -> Seq<u8> {
    u32_le_bytes(v.position[0]) + u32_le_bytes(v.position[1]) + u32_le_bytes(v.position[2])
        + u32_le_bytes(v.position[3]) + u32_le_bytes(v.color[0]) + u32_le_bytes(v.color[1])
        + u32_le_bytes(v.color[2]) + u32_le_bytes(v.color[3])
}

/// Appends the 32-byte encoding of `v` to `out`.
pub fn push_vertex_bytes(out: &mut Vec<u8>, v: &Vertex)
    ensures
        final(out)@ == old(out)@ + vertex_bytes(*v),
{
    push_u32_le(out, v.position[0]);
    push_u32_le(out, v.position[1]);
    push_u32_le(out, v.position[2]);
    push_u32_le(out, v.position[3]);
    push_u32_le(out, v.color[0]);
    push_u32_le(out, v.color[1]);
    push_u32_le(out, v.color[2]);
    push_u32_le(out, v.color[3]);
    proof {
        assert(out@ =~= old(out)@ + vertex_bytes(*v));
    }
}

/// One attribute of the vertex layout: where it starts inside a vertex and
/// which shader input location reads it. Every attribute of this layout is a
/// four-component vector of 32-bit floats.
#[derive(PartialEq, Eq, Structural)]
pub struct VertexAttributeSpec {
    pub offset: u64,
    pub shader_location: u32,
}

/// The vertex buffer layout: the distance between consecutive vertices and
/// whether the buffer advances per vertex (as opposed to per instance).
#[derive(PartialEq, Eq, Structural)]
pub struct VertexLayoutSpec {
    pub array_stride: u64,
    pub step_per_vertex: bool,
}

impl Vertex {
    /// The two attributes of the layout: position at the start of the vertex
    /// feeding shader location 0, color after it feeding location 1. These
    /// offsets and locations are load-bearing: they must match the shader's
    /// declared inputs byte for byte.
    pub fn vertex_attributes() -> (r: Vec<VertexAttributeSpec>)
        ensures
            r@.len() == 2,
            r@[0] == (VertexAttributeSpec { offset: 0, shader_location: 0 }),
            r@[1] == (VertexAttributeSpec { offset: COLOR_OFFSET, shader_location: 1 }),
    {
        let mut r: Vec<VertexAttributeSpec> = Vec::new();
        r.push(VertexAttributeSpec { offset: 0, shader_location: 0 });
        r.push(VertexAttributeSpec { offset: COLOR_OFFSET, shader_location: 1 });
        r
    }

    /// The buffer layout that carries the given attributes: one vertex every
    /// `VERTEX_STRIDE` bytes, advancing per vertex.
    pub fn description(attributes: &Vec<VertexAttributeSpec>) -> (r: VertexLayoutSpec)
        ensures
            r == (VertexLayoutSpec { array_stride: VERTEX_STRIDE, step_per_vertex: true }),
    {
        let _ = attributes;
        VertexLayoutSpec { array_stride: VERTEX_STRIDE, step_per_vertex: true }
    }
}

/// The three vertices of the demo triangle: right and left bottom corners
/// and the top center, colored red, green and blue in turn.
pub fn demo_vertices() -> (r: Vec<Vertex>)
    ensures
        r@.len() == 3,
        r@[0].position == [F_ONE, F_NEG_ONE, F_ZERO, F_ONE],
        r@[0].color == [F_ONE, F_ZERO, F_ZERO, F_ONE],
        r@[1].position == [F_NEG_ONE, F_NEG_ONE, F_ZERO, F_ONE],
        r@[1].color == [F_ZERO, F_ONE, F_ZERO, F_ONE],
        r@[2].position == [F_ZERO, F_ONE, F_ZERO, F_ONE],
        r@[2].color == [F_ZERO, F_ZERO, F_ONE, F_ONE],
{
    let mut r: Vec<Vertex> = Vec::new();
    r.push(Vertex { position: [F_ONE, F_NEG_ONE, F_ZERO, F_ONE], color: [F_ONE, F_ZERO, F_ZERO, F_ONE] });
    r.push(Vertex { position: [F_NEG_ONE, F_NEG_ONE, F_ZERO, F_ONE], color: [F_ZERO, F_ONE, F_ZERO, F_ONE] });
    r.push(Vertex { position: [F_ZERO, F_ONE, F_ZERO, F_ONE], color: [F_ZERO, F_ZERO, F_ONE, F_ONE] });
    r
}

/// The index list of the demo triangle: the three vertices in clockwise
/// winding order.
pub fn demo_indices() -> (r: Vec<u32>)
    ensures
        r@ == seq![0u32, 1u32, 2u32],
{
    let mut r: Vec<u32> = Vec::new();
    r.push(0);
    r.push(1);
    r.push(2);
    proof {
        assert(r@ =~= seq![0u32, 1u32, 2u32]);
    }
    r
}

/// The byte image of a vertex list as the GPU reads it: each vertex's 32
/// bytes in order.
pub open spec fn vertices_bytes(vs: Seq<Vertex>) -> Seq<u8>
    decreases vs.len(),
{
    if vs.len() == 0 {
        Seq::empty()
    } else {
        vertex_bytes(vs[0]) + vertices_bytes(vs.drop_first())
    }
}

/// Encodes a vertex list into its byte image.
pub fn encode_vertices(vs: &Vec<Vertex>) -> (r: Vec<u8>)
    ensures
        r@ == vertices_bytes(vs@),
{
    let mut r: Vec<u8> = Vec::new();
    let mut k: usize = 0;
    while k < vs.len()
        invariant
            k <= vs.len(),
            r@ == vertices_bytes(vs@.take(k as int)),
        decreases vs.len() - k,
    {
        push_vertex_bytes(&mut r, &vs[k]);
        proof {
            lemma_vertices_bytes_push(vs@, k as int);
        }
        k = k + 1;
    }
    proof {
        assert(vs@.take(vs@.len() as int) =~= vs@);
    }
    r
}

/// Extending the encoded prefix by one vertex appends that vertex's bytes.
proof fn lemma_vertices_bytes_push(vs: Seq<Vertex>, k: int)
    requires
        0 <= k < vs.len(),
    ensures
        vertices_bytes(vs.take(k + 1)) == vertices_bytes(vs.take(k)) + vertex_bytes(vs[k]),
    decreases k,
{
    if k == 0 {
        assert(vs.take(1).drop_first() =~= Seq::<Vertex>::empty());
        assert(vs.take(1)[0] == vs[0]);
        assert(vertex_bytes(vs[0]) + vertices_bytes(Seq::<Vertex>::empty()) =~= vertex_bytes(vs[0]));
        assert(vertices_bytes(vs.take(1)) =~= vertex_bytes(vs[0]));
        assert(vertices_bytes(vs.take(0)) =~= Seq::<u8>::empty());
        assert(vertices_bytes(vs.take(0)) + vertex_bytes(vs[0]) =~= vertex_bytes(vs[0]));
    } else {
        lemma_vertices_bytes_push(vs.drop_first(), k - 1);
        assert(vs.take(k + 1).drop_first() =~= vs.drop_first().take(k));
        assert(vs.take(k).drop_first() =~= vs.drop_first().take(k - 1));
        assert(vs.take(k + 1)[0] == vs[0]);
        assert(vs.take(k)[0] == vs[0]);
        assert(vs.drop_first()[k - 1] == vs[k]);
        assert(vertices_bytes(vs.take(k + 1)) == vertex_bytes(vs[0]) + vertices_bytes(vs.drop_first().take(k)));
        assert(vertices_bytes(vs.take(k)) == vertex_bytes(vs[0]) + vertices_bytes(vs.drop_first().take(k - 1)));
        assert(vertex_bytes(vs[0]) + (vertices_bytes(vs.drop_first().take(k - 1)) + vertex_bytes(vs[k]))
            =~= (vertex_bytes(vs[0]) + vertices_bytes(vs.drop_first().take(k - 1))) + vertex_bytes(vs[k]));
    }
}

/// The byte image of an index list: each index's four little-endian bytes.
pub open spec fn indices_bytes(is: Seq<u32>) -> Seq<u8>
    decreases is.len(),
{
    if is.len() == 0 {
        Seq::empty()
    } else {
        u32_le_bytes(is[0]) + indices_bytes(is.drop_first())
    }
}

/// Encodes an index list into its byte image.
pub fn encode_indices(is: &Vec<u32>) -> (r: Vec<u8>)
    ensures
        r@ == indices_bytes(is@),
{
    let mut r: Vec<u8> = Vec::new();
    let mut k: usize = 0;
    while k < is.len()
        invariant
            k <= is.len(),
            r@ == indices_bytes(is@.take(k as int)),
        decreases is.len() - k,
    {
        push_u32_le(&mut r, is[k]);
        proof {
            lemma_indices_bytes_push(is@, k as int);
        }
        k = k + 1;
    }
    proof {
        assert(is@.take(is@.len() as int) =~= is@);
    }
    r
}

/// Extending the encoded prefix by one index appends that index's bytes.
proof fn lemma_indices_bytes_push(is: Seq<u32>, k: int)
    requires
        0 <= k < is.len(),
    ensures
        indices_bytes(is.take(k + 1)) == indices_bytes(is.take(k)) + u32_le_bytes(is[k]),
    decreases k,
{
    if k == 0 {
        assert(is.take(1).drop_first() =~= Seq::<u32>::empty());
        assert(is.take(1)[0] == is[0]);
        assert(u32_le_bytes(is[0]) + indices_bytes(Seq::<u32>::empty()) =~= u32_le_bytes(is[0]));
        assert(indices_bytes(is.take(1)) =~= u32_le_bytes(is[0]));
        assert(indices_bytes(is.take(0)) =~= Seq::<u8>::empty());
        assert(indices_bytes(is.take(0)) + u32_le_bytes(is[0]) =~= u32_le_bytes(is[0]));
    } else {
        lemma_indices_bytes_push(is.drop_first(), k - 1);
        assert(is.take(k + 1).drop_first() =~= is.drop_first().take(k));
        assert(is.take(k).drop_first() =~= is.drop_first().take(k - 1));
        assert(is.drop_first()[k - 1] == is[k]);
        assert(indices_bytes(is.take(k + 1)) == u32_le_bytes(is[0]) + indices_bytes(is.drop_first().take(k)));
        assert(indices_bytes(is.take(k)) == u32_le_bytes(is[0]) + indices_bytes(is.drop_first().take(k - 1)));
        assert(u32_le_bytes(is[0]) + (indices_bytes(is.drop_first().take(k - 1)) + u32_le_bytes(is[k]))
            =~= (u32_le_bytes(is[0]) + indices_bytes(is.drop_first().take(k - 1))) + u32_le_bytes(is[k]));
    }
}

} // verus!
