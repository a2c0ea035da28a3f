//! The graphics context: surface bookkeeping and per-frame rendering.
//!
//! The context owns the shape registry and the surface's configured
//! dimensions. What the GPU binding itself does — device negotiation,
//! shader compilation, texture acquisition, presentation — happens in the
//! application around these calls; what one frame submits, and in what
//! order, is decided and proved here.

use vstd::prelude::*;

use crate::shapes::{commands_of, DrawCommand, RenderPass, Shape, ShapeManager};

verus! {

/// The renderer bound to one window: the shape registry plus the surface
/// configuration. The surface is always configured to at least 1 x 1.
pub struct Graphics {
    pub shape_manager: ShapeManager,
    pub surface_width: u32,
    pub surface_height: u32,
}

impl Graphics {
    pub open spec fn wf(self) -> bool {
        &&& self.shape_manager.wf()
        &&& 1 <= self.surface_width
        &&& 1 <= self.surface_height
    }

    /// Bootstraps the context for a window of the given pixel dimensions:
    /// an empty registry, and the surface configured to the window's size,
    /// clamped to a minimum of 1 x 1.
    pub fn new(width: u32, height: u32) -> (graphics: Graphics)
        ensures
            graphics.wf(),
            graphics.shape_manager.shapes@ == Seq::<Shape>::empty(),
            graphics.surface_width == if width == 0 {
                1u32
            } else {
                width
            },
            graphics.surface_height == if height == 0 {
                1u32
            } else {
                height
            },
    {
        let surface_width = if width == 0 {
            1
        } else {
            width
        };
        let surface_height = if height == 0 {
            1
        } else {
            height
        };
        Graphics { shape_manager: ShapeManager::new(), surface_width, surface_height }
    }

    /// Reconfigures the surface to the window's current pixel dimensions;
    /// to be called whenever the window size may have changed, before the
    /// next redraw. The registry is untouched.
    pub fn configure(&mut self, width: u32, height: u32)
        requires
            old(self).wf(),
            1 <= width,
            1 <= height,
        ensures
            final(self).wf(),
            final(self).surface_width == width,
            final(self).surface_height == height,
            final(self).shape_manager == old(self).shape_manager,
    {
        self.surface_width = width;
        self.surface_height = height;
    }

    /// Records one frame into a freshly begun pass: binds the shared
    /// pipeline once, then asks every registered shape, in registration
    /// order, to submit its draw command. Later shapes draw over earlier
    /// ones; this is the renderer's only compositing rule.
    pub fn render(&self, render_pass: &mut RenderPass)
        requires
            self.wf(),
            !old(render_pass).pipeline_bound,
            old(render_pass).draws@ == Seq::<DrawCommand>::empty(),
        ensures
            final(render_pass).pipeline_bound,
            final(render_pass).draws@ == commands_of(self.shape_manager.shapes@),
    {
        render_pass.set_pipeline();
        let count = self.shape_manager.shape_count();
        let mut index: usize = 0;
        while index < count
            invariant
                self.wf(),
                count == self.shape_manager.shapes@.len(),
                index <= count,
                render_pass.pipeline_bound,
                render_pass.draws@ == commands_of(self.shape_manager.shapes@).take(index as int),
            decreases count - index,
        {
            let shape = self.shape_manager.get(index);
            shape.draw(render_pass);
            proof {
                assert(commands_of(self.shape_manager.shapes@).take(index as int + 1)
                    =~= commands_of(self.shape_manager.shapes@).take(index as int).push(
                    self.shape_manager.shapes@[index as int].command_spec(),
                ));
            }
            index = index + 1;
        }
        proof {
            assert(commands_of(self.shape_manager.shapes@).take(count as int) =~= commands_of(
                self.shape_manager.shapes@,
            ));
        }
    }

    /// One full frame: begin a pass and record every registered shape's
    /// draw, in registration order. The application wraps this between
    /// acquiring the surface texture and presenting it.
    pub fn redraw(&self) -> (render_pass: RenderPass)
        requires
            self.wf(),
        ensures
            render_pass.pipeline_bound,
            render_pass.draws@ == commands_of(self.shape_manager.shapes@),
    {
        let mut render_pass = RenderPass::begin();
        self.render(&mut render_pass);
        render_pass
    }
}

/// Registration order is preserved in iteration: appending shapes a, b, c
/// to a registry holding `shapes` and then iterating — as `render` does —
/// yields exactly `shapes` followed by a, b, c, and one frame's draw list
/// follows suit, command for command.
pub proof fn lemma_registration_order(shapes: Seq<Shape>, a: Shape, b: Shape, c: Shape)
    ensures
        shapes.push(a).push(b).push(c) == shapes + seq![a, b, c],
        commands_of(shapes.push(a).push(b).push(c)) == commands_of(shapes) + seq![
            a.command_spec(),
            b.command_spec(),
            c.command_spec(),
        ],
{
    assert(shapes.push(a).push(b).push(c) =~= shapes + seq![a, b, c]);
    assert(commands_of(shapes.push(a).push(b).push(c)) =~= commands_of(shapes) + seq![
        a.command_spec(),
        b.command_spec(),
        c.command_spec(),
    ]);
}

} // verus!
