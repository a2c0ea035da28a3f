//! The triangle primitive: three caller-given vertices, no generation.

use vstd::prelude::*;

use crate::color::Color;
use crate::geometry::Point;

verus! {

/// A triangle with explicit vertices. `vertices` models the contents of
/// the GPU-resident vertex buffer, written once at construction.
pub struct Triangle {
    pub vertices: Vec<Point>,
    pub color: Color,
}

impl Triangle {
    /// A well-formed triangle always holds exactly its three vertices.
    pub open spec fn wf(self) -> bool {
        self.vertices@.len() == 3
    }

    /// Constructs a triangle from three explicit vertices and a color;
    /// the vertices are uploaded exactly as given.
    pub fn new(color: Color, vertices: [Point; 3]) -> (tri: Triangle)
        ensures
            tri.wf(),
            tri.color == color,
            tri.vertices@ == vertices@,
    {
        let list = vec![vertices[0], vertices[1], vertices[2]];
        proof {
            assert(list@ =~= vertices@);
        }
        Triangle { vertices: list, color }
    }

    /// Replaces the color; the vertex buffer is untouched.
    pub fn set_color(&mut self, color: Color)
        requires
            old(self).wf(),
        ensures
            final(self).wf(),
            final(self).color == color,
            final(self).vertices@ == old(self).vertices@,
    {
        self.color = color;
    }

    /// Replaces the three vertices in place: the buffer's element count
    /// never changes.
    pub fn set_vertices(&mut self, vertices: [Point; 3])
        requires
            old(self).wf(),
        ensures
            final(self).wf(),
            final(self).color == old(self).color,
            final(self).vertices@ == vertices@,
            final(self).vertices@.len() == old(self).vertices@.len(),
    {
        let list = vec![vertices[0], vertices[1], vertices[2]];
        proof {
            assert(list@ =~= vertices@);
        }
        self.vertices = list;
    }

    /// How many vertices one draw of this triangle submits.
    pub fn vertex_count(&self) -> (n: u32)
        requires
            self.wf(),
        ensures
            n == self.vertices@.len(),
            n == 3,
    {
        3
    }
}

} // verus!
