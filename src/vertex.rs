//! The mesh vertex and how the vertex shader reads it.

use vstd::prelude::*;

verus! {

broadcast use vstd::array::group_array_axioms;

/// A mesh vertex: a position and a texture coordinate. Each component is the
/// bit pattern of a 32-bit float, so two vertices are equal exactly when their
/// bits are: `0.0` and `-0.0` differ, and two NaN components with the same
/// bits are equal, so vertices holding them are merged.
#[derive(Clone, Copy, Debug, PartialEq, Eq)]
pub struct Vertex {
    pub pos: [u32; 3],
    pub uv: [u32; 2],
}

impl Vertex {
    pub fn new(pos: [u32; 3], uv: [u32; 2]) -> (r: Vertex)
        ensures
            r.pos == pos,
            r.uv == uv,
    {
        Vertex { pos, uv }
    }

    /// Component-wise equality.
    pub fn same_as(&self, other: &Vertex) -> (r: bool)
        ensures
            r == (*self == *other),
    {
        let r = self.pos[0] == other.pos[0] && self.pos[1] == other.pos[1] && self.pos[2]
            == other.pos[2] && self.uv[0] == other.uv[0] && self.uv[1] == other.uv[1];
        if r {
            assert(self.pos =~= other.pos);
            assert(self.uv =~= other.uv);
        }
        r
    }
}

/// Bytes between consecutive vertices: five 4-byte components.
pub const VERTEX_STRIDE: u32 = 20;

/// The component layout of a vertex attribute.
#[derive(Clone, Copy, Debug, PartialEq, Eq, Structural)]
pub enum VertexFormat {
    /// Three 32-bit floats.
    R32G32B32Sfloat,
    /// Two 32-bit floats.
    R32G32Sfloat,
}

/// How vertices are read from a bound vertex buffer.
#[derive(Clone, Copy, Debug, PartialEq, Eq, Structural)]
pub struct VertexBinding {
    pub binding: u32,
    pub stride: u32,
    /// Advance per instance rather than per vertex.
    pub per_instance: bool,
}

/// Where one attribute of a vertex lies.
#[derive(Clone, Copy, Debug, PartialEq, Eq, Structural)]
pub struct VertexAttribute {
    pub binding: u32,
    pub location: u32,
    pub format: VertexFormat,
    pub offset: u32,
}

impl Vertex {
    /// One binding, read per vertex, one vertex every `VERTEX_STRIDE` bytes.
    pub fn binding_description() -> (r: VertexBinding)
        ensures
            r == (VertexBinding { binding: 0, stride: VERTEX_STRIDE, per_instance: false }),
    {
        VertexBinding { binding: 0, stride: VERTEX_STRIDE, per_instance: false }
    }

    /// The position at location 0, offset 0; the texture coordinate at
    /// location 1, right after the position's twelve bytes.
    pub fn attribute_descriptions() -> (r: [VertexAttribute; 2])
        ensures
            r[0] == (VertexAttribute {
                binding: 0,
                location: 0,
                format: VertexFormat::R32G32B32Sfloat,
                offset: 0,
            }),
            r[1] == (VertexAttribute {
                binding: 0,
                location: 1,
                format: VertexFormat::R32G32Sfloat,
                offset: 12,
            }),
    {
        [
            VertexAttribute { binding: 0, location: 0, format: VertexFormat::R32G32B32Sfloat, offset: 0 },
            VertexAttribute { binding: 0, location: 1, format: VertexFormat::R32G32Sfloat, offset: 12 },
        ]
    }
}

} // verus!
