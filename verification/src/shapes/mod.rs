//! The shape capability: every primitive can submit its draw commands
//! into an active render pass.
//!
//! The variant set is closed, so the capability is a plain enum rather
//! than a dispatch table. A render pass is modelled by what is observable
//! of it: whether the shared pipeline has been bound, and the ordered list
//! of draw commands recorded so far. The application replays that list
//! against the real GPU pass, one draw call per command.

pub mod ellipse;
pub mod manager;
pub mod rectangle;
pub mod triangle;

use vstd::prelude::*;

pub use ellipse::Ellipse;
pub use ellipse::FanVertex;
pub use manager::ShapeManager;
pub use rectangle::Rectangle;
pub use triangle::Triangle;

use crate::color::Color;

verus! {

/// One recorded draw: bind the shape's color resource, then draw its
/// vertex count out of its own vertex buffer.
#[derive(Clone, Copy, Debug, PartialEq, Eq, Structural)]
pub struct DrawCommand {
    pub color: Color,
    pub vertex_count: u32,
}

/// Any of the three primitives.
pub enum Shape {
    Rectangle(Rectangle),
    Triangle(Triangle),
    Ellipse(Ellipse),
}

impl Shape {
    pub open spec fn wf(self) -> bool {
        match self {
            Shape::Rectangle(r) => r.wf(),
            Shape::Triangle(t) => t.wf(),
            Shape::Ellipse(e) => e.wf(),
        }
    }

    /// The color bound when this shape draws.
    pub open spec fn color_spec(self) -> Color {
        match self {
            Shape::Rectangle(r) => r.color,
            Shape::Triangle(t) => t.color,
            Shape::Ellipse(e) => e.color,
        }
    }

    /// The vertex count of one draw of this shape.
    pub open spec fn vertex_count_spec(self) -> int {
        match self {
            Shape::Rectangle(_) => 6,
            Shape::Triangle(_) => 3,
            Shape::Ellipse(e) => e.segments * 3,
        }
    }

    /// The length of the vertex list this shape keeps in its buffer.
    pub open spec fn vertex_buffer_len(self) -> nat {
        match self {
            Shape::Rectangle(r) => r.vertices@.len(),
            Shape::Triangle(t) => t.vertices@.len(),
            Shape::Ellipse(e) => e.vertices@.len(),
        }
    }

    /// The one draw command this shape submits.
    pub open spec fn command_spec(self) -> DrawCommand {
        DrawCommand { color: self.color_spec(), vertex_count: self.vertex_count_spec() as u32 }
    }

    pub fn color(&self) -> (c: Color)
        ensures
            c == self.color_spec(),
    {
        match self {
            Shape::Rectangle(r) => r.color,
            Shape::Triangle(t) => t.color,
            Shape::Ellipse(e) => e.color,
        }
    }

    pub fn vertex_count(&self) -> (n: u32)
        requires
            self.wf(),
        ensures
            n == self.vertex_count_spec(),
    {
        match self {
            Shape::Rectangle(r) => r.vertex_count(),
            Shape::Triangle(t) => t.vertex_count(),
            Shape::Ellipse(e) => e.vertex_count(),
        }
    }

    /// Submits this shape's draw command into the active pass: exactly one
    /// command is appended, and the pipeline binding — made once per frame
    /// by the graphics context — is left untouched.
    pub fn draw(&self, render_pass: &mut RenderPass)
        requires
            self.wf(),
            old(render_pass).pipeline_bound,
        ensures
            final(render_pass).pipeline_bound == old(render_pass).pipeline_bound,
            final(render_pass).draws@ == old(render_pass).draws@.push(self.command_spec()),
    {
        let vertex_count = self.vertex_count();
        let color = self.color();
        render_pass.draws.push(DrawCommand { color, vertex_count });
    }
}

/// What is observable of an active render pass: the pipeline binding and
/// the draw commands recorded so far, in submission order.
pub struct RenderPass {
    pub pipeline_bound: bool,
    pub draws: Vec<DrawCommand>,
}

impl RenderPass {
    /// Begins a fresh pass: nothing bound, nothing drawn yet.
    pub fn begin() -> (render_pass: RenderPass)
        ensures
            !render_pass.pipeline_bound,
            render_pass.draws@ == Seq::<DrawCommand>::empty(),
    {
        RenderPass { pipeline_bound: false, draws: Vec::new() }
    }

    /// Binds the shared pipeline; recorded draws are unaffected.
    pub fn set_pipeline(&mut self)
        ensures
            final(self).pipeline_bound,
            final(self).draws@ == old(self).draws@,
    {
        self.pipeline_bound = true;
    }
}

/// The draw commands that a sequence of shapes submits, in order.
pub open spec fn commands_of(shapes: Seq<Shape>) -> Seq<DrawCommand> {
    shapes.map_values(|s: Shape| s.command_spec())
}

/// One draw of a well-formed shape consumes exactly its whole vertex
/// buffer: the command's vertex count equals the length of the vertex
/// list the shape uploaded.
pub proof fn lemma_draw_covers_buffer(shape: Shape)
    requires
        shape.wf(),
    ensures
        shape.command_spec().vertex_count == shape.vertex_buffer_len(),
{
}

} // verus!
