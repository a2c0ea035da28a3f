//! The ellipse primitive: a triangle fan around the center.
//!
//! The tessellation is kept symbolically: the fan vertex `Rim(k)` of an
//! ellipse with `segments` wedges stands for the rim point at angle
//! `2*pi*k / segments`, that is `center + (size.width * cos, size.height *
//! sin)` of that angle. The application evaluates the trigonometry when it
//! uploads the buffer; which vertex goes where, and how many there are, is
//! fixed and proved here.

use vstd::prelude::*;

use crate::color::Color;
use crate::geometry::{Point, Size};

verus! {

/// One vertex of the triangle fan: the shared center, or the rim point at
/// angle index `k` of the ellipse's `segments` equally spaced directions.
#[derive(Clone, Copy, Debug, PartialEq, Eq, Structural)]
pub enum FanVertex {
    Center,
    Rim(u32),
}

/// The vertex at offset `j` of the fan: wedge `i = j / 3` is the triangle
/// (center, rim i, rim ((i + 1) % segments)).
pub open spec fn fan_vertex_at(segments: u32, j: int) -> FanVertex {
    if j % 3 == 0 {
        FanVertex::Center
    } else if j % 3 == 1 {
        FanVertex::Rim((j / 3) as u32)
    } else {
        FanVertex::Rim(((j / 3 + 1) % (segments as int)) as u32)
    }
}

/// The whole fan: `segments * 3` vertices, three per wedge.
pub open spec fn fan_vertices_spec(segments: u32) -> Seq<FanVertex> {
    Seq::new((segments * 3) as nat, |j: int| fan_vertex_at(segments, j))
}

/// An ellipse of extent `size` centered at `position`, tessellated into
/// `segments` wedges. `vertices` models the contents of the GPU-resident
/// vertex buffer, allocated once at construction and only ever rewritten
/// to the same length.
pub struct Ellipse {
    pub position: Point,
    pub size: Size,
    pub segments: u32,
    pub vertices: Vec<FanVertex>,
    pub color: Color,
}

impl Ellipse {
    /// The segment count the shape manager uses.
    pub const DEFAULT_AMOUNT_OF_SEGMENTS: u32 = 64;

    /// A well-formed ellipse: enough segments to enclose an area, a vertex
    /// count that fits the buffer bookkeeping, a positive extent, and a
    /// vertex list that is exactly the generated fan.
    pub open spec fn wf(self) -> bool {
        &&& 4 <= self.segments
        &&& self.segments * 3 <= u32::MAX
        &&& self.size.valid()
        &&& self.vertices@ == fan_vertices_spec(self.segments)
    }

    /// Generates the fan's vertex list for `segments` wedges.
    pub fn generate_vertices(segments: u32) -> (v: Vec<FanVertex>)
        requires
            4 <= segments,
            segments * 3 <= u32::MAX,
        ensures
            v@ == fan_vertices_spec(segments),
            v@.len() == segments * 3,
    {
        let mut v: Vec<FanVertex> = Vec::new();
        let mut i: u32 = 0;
        while i < segments
            invariant
                4 <= segments,
                segments * 3 <= u32::MAX,
                i <= segments,
                v@.len() == 3 * i,
                forall|j: int| 0 <= j < v@.len() ==> v@[j] == fan_vertex_at(segments, j),
            decreases segments - i,
        {
            let next = if i + 1 == segments {
                0
            } else {
                i + 1
            };
            v.push(FanVertex::Center);
            v.push(FanVertex::Rim(i));
            v.push(FanVertex::Rim(next));
            proof {
                assert(3 * (i as int) % 3 == 0 && (3 * (i as int) + 1) % 3 == 1 && (3 * (i as int)
                    + 2) % 3 == 2 && 3 * (i as int) / 3 == i && (3 * (i as int) + 1) / 3 == i && (3
                    * (i as int) + 2) / 3 == i) by (nonlinear_arith)
                    requires
                        0 <= i,
                ;
                if i + 1 == segments {
                    assert((segments as int) % (segments as int) == 0) by (nonlinear_arith)
                        requires
                            0 < segments,
                    ;
                } else {
                    assert((i as int + 1) % (segments as int) == i as int + 1) by (nonlinear_arith)
                        requires
                            0 <= i as int + 1 < segments as int,
                    ;
                }
                assert(next == (i as int + 1) % (segments as int));
            }
            i = i + 1;
        }
        proof {
            assert(v@ =~= fan_vertices_spec(segments));
        }
        v
    }

    /// Constructs an ellipse: generates the fan once and takes the color.
    pub fn new(color: Color, size: Size, position: Point, segments: u32) -> (e: Ellipse)
        requires
            4 <= segments,
            segments * 3 <= u32::MAX,
            size.valid(),
        ensures
            e.wf(),
            e.color == color,
            e.size == size,
            e.position == position,
            e.segments == segments,
    {
        let vertices = Self::generate_vertices(segments);
        Ellipse { position, size, segments, vertices, color }
    }

    /// How many vertices one draw of this ellipse submits.
    pub fn vertex_count(&self) -> (n: u32)
        requires
            self.wf(),
        ensures
            n == self.vertices@.len(),
            n == self.segments * 3,
    {
        self.segments * 3
    }

    /// Replaces the color; the vertex buffer is untouched.
    pub fn set_color(&mut self, color: Color)
        requires
            old(self).wf(),
        ensures
            final(self).wf(),
            final(self).color == color,
            final(self).position == old(self).position,
            final(self).size == old(self).size,
            final(self).segments == old(self).segments,
            final(self).vertices@ == old(self).vertices@,
    {
        self.color = color;
    }

    /// Moves and resizes the ellipse, regenerating the vertex list in
    /// place. The segment count is the one fixed at construction, so the
    /// regenerated list has exactly the original length and never outgrows
    /// the buffer allocated then.
    pub fn set_size(&mut self, position: Point, size: Size)
        requires
            old(self).wf(),
            size.valid(),
        ensures
            final(self).wf(),
            final(self).position == position,
            final(self).size == size,
            final(self).segments == old(self).segments,
            final(self).color == old(self).color,
            final(self).vertices@ == old(self).vertices@,
            final(self).vertices@.len() == old(self).vertices@.len(),
    {
        self.position = position;
        self.size = size;
        self.vertices = Self::generate_vertices(self.segments);
    }
}

/// Wedge `i` of the fan is the triangle (center, rim i, rim i + 1): the
/// whole fan has `segments * 3` vertices and the two non-center vertices
/// of every wedge sit at consecutive angle indices, one step of
/// `2*pi/segments` apart around the ellipse.
pub proof fn lemma_fan_wedges(segments: u32, i: int)
    requires
        4 <= segments,
        0 <= i < segments,
    ensures
        fan_vertices_spec(segments).len() == segments * 3,
        fan_vertices_spec(segments)[3 * i] == FanVertex::Center,
        fan_vertices_spec(segments)[3 * i + 1] == FanVertex::Rim(i as u32),
        fan_vertices_spec(segments)[3 * i + 2] == FanVertex::Rim((((i + 1) % (
        segments as int)) as u32)),
{
    assert(3 * i % 3 == 0 && (3 * i + 1) % 3 == 1 && (3 * i + 2) % 3 == 2 && 3 * i / 3 == i && (3
        * i + 1) / 3 == i && (3 * i + 2) / 3 == i && 3 * i + 2 < 3 * segments) by (nonlinear_arith)
        requires
            0 <= i < segments,
    ;
}

/// Fan generation is deterministic: two vertex lists generated for the
/// same segment count are equal, element for element.
pub proof fn lemma_generation_deterministic(a: Seq<FanVertex>, b: Seq<FanVertex>, segments: u32)
    requires
        a == fan_vertices_spec(segments),
        b == fan_vertices_spec(segments),
    ensures
        a == b,
{
}

} // verus!
