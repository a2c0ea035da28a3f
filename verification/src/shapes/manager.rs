//! The shape manager: the factory and registry for all live shapes.
//!
//! The registry is append-only: shapes are created, appended, and live
//! until the manager is torn down. Iteration order is registration order,
//! and that order is the renderer's only compositing rule.

use vstd::prelude::*;

use crate::color::Color;
use crate::geometry::{box_in_range, rectangle_vertices_spec, Point, Size};
use crate::shapes::ellipse::{fan_vertices_spec, Ellipse};
use crate::shapes::rectangle::Rectangle;
use crate::shapes::triangle::Triangle;
use crate::shapes::Shape;

verus! {

/// The ordered collection of every registered shape. On the GPU side all
/// of them were built against the manager's one device and bind-group
/// layout, so any of them can draw under the single shared pipeline.
pub struct ShapeManager {
    pub shapes: Vec<Shape>,
}

impl ShapeManager {
    /// Every registered shape is well-formed.
    pub open spec fn wf(self) -> bool {
        forall|i: int| 0 <= i < self.shapes@.len() ==> #[trigger] self.shapes@[i].wf()
    }

    /// An empty registry.
    pub fn new() -> (manager: ShapeManager)
        ensures
            manager.wf(),
            manager.shapes@ == Seq::<Shape>::empty(),
    {
        ShapeManager { shapes: Vec::new() }
    }

    pub fn shape_count(&self) -> (n: usize)
        ensures
            n == self.shapes@.len(),
    {
        self.shapes.len()
    }

    pub fn get(&self, index: usize) -> (shape: &Shape)
        requires
            index < self.shapes@.len(),
        ensures
            *shape == self.shapes@[index as int],
    {
        &self.shapes[index]
    }

    /// Constructs a rectangle and appends it: everything registered so far
    /// keeps its place, and the new shape comes last.
    pub fn rectangle(&mut self, color: Color, size: Size, position: Point)
        requires
            old(self).wf(),
            size.valid(),
            box_in_range(size, position),
        ensures
            final(self).wf(),
            final(self).shapes@.len() == old(self).shapes@.len() + 1,
            forall|i: int|
                0 <= i < old(self).shapes@.len() ==> final(self).shapes@[i] == old(self).shapes@[i],
            final(self).shapes@.last() matches Shape::Rectangle(r) && r.color == color
                && r.vertices@ == rectangle_vertices_spec(size, position),
    {
        self.shapes.push(Shape::Rectangle(Rectangle::new(color, size, position)));
    }

    /// Constructs a triangle from three explicit vertices and appends it.
    pub fn triangle(&mut self, color: Color, vertices: [Point; 3])
        requires
            old(self).wf(),
        ensures
            final(self).wf(),
            final(self).shapes@.len() == old(self).shapes@.len() + 1,
            forall|i: int|
                0 <= i < old(self).shapes@.len() ==> final(self).shapes@[i] == old(self).shapes@[i],
            final(self).shapes@.last() matches Shape::Triangle(t) && t.color == color && t.vertices@
                == vertices@,
    {
        self.shapes.push(Shape::Triangle(Triangle::new(color, vertices)));
    }

    /// Constructs an ellipse with the default segment count and appends
    /// it.
    pub fn ellipse(&mut self, color: Color, size: Size, position: Point)
        requires
            old(self).wf(),
            size.valid(),
        ensures
            final(self).wf(),
            final(self).shapes@.len() == old(self).shapes@.len() + 1,
            forall|i: int|
                0 <= i < old(self).shapes@.len() ==> final(self).shapes@[i] == old(self).shapes@[i],
            final(self).shapes@.last() matches Shape::Ellipse(e) && e.color == color && e.size
                == size && e.position == position && e.segments
                == Ellipse::DEFAULT_AMOUNT_OF_SEGMENTS && e.vertices@ == fan_vertices_spec(
                Ellipse::DEFAULT_AMOUNT_OF_SEGMENTS,
            ),
    {
        self.shapes.push(
            Shape::Ellipse(
                Ellipse::new(color, size, position, Ellipse::DEFAULT_AMOUNT_OF_SEGMENTS),
            ),
        );
    }
}

} // verus!
