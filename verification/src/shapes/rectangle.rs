//! The rectangle primitive: six vertices, two triangles over the box.

use vstd::prelude::*;

use crate::color::Color;
use crate::geometry::{box_in_range, rectangle_vertices, rectangle_vertices_spec, Point, Size};

verus! {

/// An axis-aligned rectangle. `vertices` models the contents of the
/// GPU-resident vertex buffer, written once at construction.
pub struct Rectangle {
    pub vertices: Vec<Point>,
    pub color: Color,
}

impl Rectangle {
    /// A well-formed rectangle always holds the six vertices of its two
    /// triangles.
    pub open spec fn wf(self) -> bool {
        self.vertices@.len() == 6
    }

    /// Constructs a rectangle of extent `size` centered at `position`:
    /// generates the six box vertices and takes the color.
    pub fn new(color: Color, size: Size, position: Point) -> (rect: Rectangle)
        requires
            size.valid(),
            box_in_range(size, position),
        ensures
            rect.wf(),
            rect.color == color,
            rect.vertices@ == rectangle_vertices_spec(size, position),
    {
        Rectangle { vertices: rectangle_vertices(size, position), color }
    }

    /// Replaces the color; the vertex buffer is untouched.
    pub fn set_color(&mut self, color: Color)
        requires
            old(self).wf(),
        ensures
            final(self).wf(),
            final(self).color == color,
            final(self).vertices@ == old(self).vertices@,
    {
        self.color = color;
    }

    /// Moves and resizes the rectangle, regenerating the six vertices in
    /// place: the buffer's element count never changes.
    pub fn set_size(&mut self, position: Point, size: Size)
        requires
            old(self).wf(),
            size.valid(),
            box_in_range(size, position),
        ensures
            final(self).wf(),
            final(self).color == old(self).color,
            final(self).vertices@ == rectangle_vertices_spec(size, position),
            final(self).vertices@.len() == old(self).vertices@.len(),
    {
        self.vertices = rectangle_vertices(size, position);
    }

    /// How many vertices one draw of this rectangle submits.
    pub fn vertex_count(&self) -> (n: u32)
        requires
            self.wf(),
        ensures
            n == self.vertices@.len(),
            n == 6,
    {
        6
    }
}

} // verus!
