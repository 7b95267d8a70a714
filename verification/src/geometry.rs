//! The full-screen quad: four corners of the clip-space square and the two
//! triangles that cover it.

use vstd::prelude::*;

verus! {

/// A corner of the quad.
///
/// Coordinates are whole numbers: `pos` is the clip-space position, each
/// component `-1` or `1`; `uv` is the normalised texture coordinate, each
/// component `0` or `1`.
#[derive(Clone, Copy, Debug, PartialEq, Eq)]
pub struct Vertex {
    pub pos: [i8; 2],
    pub uv: [u8; 2],
}

impl Vertex {
    /// Horizontal clip-space position: `-1` is the left edge, `1` the right.
    pub open spec fn x(self) -> int {
        self.pos[0] as int
    }

    /// Vertical clip-space position: `-1` is the bottom edge, `1` the top.
    pub open spec fn y(self) -> int {
        self.pos[1] as int
    }

    /// Horizontal texture coordinate: `0` is the image's left edge.
    pub open spec fn u(self) -> int {
        self.uv[0] as int
    }

    /// Vertical texture coordinate: `0` is the image's top edge.
    pub open spec fn v(self) -> int {
        self.uv[1] as int
    }
}

/// The vertex at clip-space position `(x, y)` with texture coordinate `(u, v)`.
pub open spec fn vertex(x: int, y: int, u: int, v: int) -> Vertex {
    Vertex { pos: [x as i8, y as i8], uv: [u as u8, v as u8] }
}

/// The four corners of the quad, in buffer order.
pub open spec fn quad_vertices() -> Seq<Vertex> {
    seq![vertex(1, -1, 1, 1), vertex(-1, -1, 0, 1), vertex(-1, 1, 0, 0), vertex(1, 1, 1, 0)]
}

/// The index buffer: triangle `0-1-2` followed by triangle `2-3-0`.
pub open spec fn quad_indices() -> Seq<u16> {
    seq![0u16, 1u16, 2u16, 2u16, 3u16, 0u16]
}

/// Builds the vertex and index buffers of the full-screen quad.
pub fn create_vertices_indices() -> (buffers: (Vec<Vertex>, Vec<u16>))
    ensures
        buffers.0@ == quad_vertices(),
        buffers.1@ == quad_indices(),
        buffers.0@.len() == 4,
        buffers.1@.len() == 6,
{
    let vertices = vec![
        Vertex { pos: [1, -1], uv: [1, 1] },
        Vertex { pos: [-1, -1], uv: [0, 1] },
        Vertex { pos: [-1, 1], uv: [0, 0] },
        Vertex { pos: [1, 1], uv: [1, 0] },
    ];
    let indices = vec![0, 1, 2, 2, 3, 0];
    (vertices, indices)
}

/// Twice the signed area of the triangle `a`, `b`, `c` in clip space:
/// negative where the corners run clockwise.
pub open spec fn doubled_area(a: Vertex, b: Vertex, c: Vertex) -> int {
    (b.x() - a.x()) * (c.y() - a.y()) - (c.x() - a.x()) * (b.y() - a.y())
}

/// The index buffer describes two triangles over the four vertices: every
/// index names a vertex, each triangle has three different corners, the two
/// share the edge between vertex 2 and vertex 0, and every vertex is a
/// corner of one of them.
pub proof fn indices_form_two_triangles()
    ensures
        quad_vertices().len() == 4,
        quad_indices().len() == 6,
        forall|k: int| 0 <= k < 6 ==> (#[trigger] quad_indices()[k]) < quad_vertices().len(),
        forall|t: int|
            0 <= t < 2 ==> {
                let a = #[trigger] quad_indices()[3 * t];
                let b = quad_indices()[3 * t + 1];
                let c = quad_indices()[3 * t + 2];
                a != b && b != c && c != a
            },
        quad_indices()[3] == quad_indices()[2] == 2,
        quad_indices()[5] == quad_indices()[0] == 0,
        forall|i: u16| i < 4 ==> quad_indices().contains(i),
{
    let indices = quad_indices();
    assert forall|t: int| 0 <= t < 2 implies {
        let a = #[trigger] indices[3 * t];
        let b = indices[3 * t + 1];
        let c = indices[3 * t + 2];
        a != b && b != c && c != a
    } by {
        if t == 0 {
        } else {
            assert(t == 1);
        }
    }
    assert forall|i: u16| i < 4 implies indices.contains(i) by {
        if i == 0 {
            assert(indices[0] == i);
        } else if i == 1 {
            assert(indices[1] == i);
        } else if i == 2 {
            assert(indices[2] == i);
        } else {
            assert(indices[4] == i);
        }
    }
}

/// The vertices are the four corners of the clip-space square, each once,
/// and each carries the texture coordinate of its place in the image: left
/// edge to left edge, top edge to top edge.
pub proof fn vertices_are_square_corners()
    ensures
        forall|i: int|
            0 <= i < 4 ==> {
                let corner = #[trigger] quad_vertices()[i];
                &&& corner.x() == 1 || corner.x() == -1
                &&& corner.y() == 1 || corner.y() == -1
                &&& 2 * corner.u() == corner.x() + 1
                &&& 2 * corner.v() == 1 - corner.y()
            },
        forall|i: int, j: int|
            0 <= i < j < 4 ==> {
                let a = #[trigger] quad_vertices()[i];
                let b = #[trigger] quad_vertices()[j];
                a.x() != b.x() || a.y() != b.y()
            },
{
}

/// Each of the two triangles, `0-1-2` and `2-3-0`, is half of the square:
/// both run clockwise and have area 2, so together they have the square's
/// area of 4.
pub proof fn triangles_halve_square()
    ensures
        doubled_area(quad_vertices()[0], quad_vertices()[1], quad_vertices()[2]) == -4,
        doubled_area(quad_vertices()[2], quad_vertices()[3], quad_vertices()[0]) == -4,
{
    let v = quad_vertices();
    assert(v[0].x() == 1 && v[0].y() == -1);
    assert(v[1].x() == -1 && v[1].y() == -1);
    assert(v[2].x() == -1 && v[2].y() == 1);
    assert(v[3].x() == 1 && v[3].y() == 1);
}

} // verus!
