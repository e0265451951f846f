//! The per-frame draw protocol.
//!
//! Every redraw request is answered with a [`FramePlan`]: the viewport the
//! frame targets, the fixed render state that holds for the whole frame,
//! and one indexed draw command per mesh instance, in load order. The host
//! executes the plan against its GL context; depth ordering relies on the
//! depth test, not on the order of the commands.

use vstd::prelude::*;

verus! {

/// Fixed render state set once per frame: depth test (pass if the incoming
/// depth is less than the stored depth), depth writes, and back-face
/// culling with counter-clockwise winding treated as back-facing.
#[derive(Clone, Copy, Debug, PartialEq, Eq, Structural)]
pub struct RenderState {
    pub depth_test: bool,
    pub depth_write: bool,
    pub cull_ccw_backfaces: bool,
}

/// The framebuffer a frame is drawn into. The projection's aspect ratio is
/// `width / height`, so a plan is only ever made for a non-zero height.
#[derive(Clone, Copy, Debug, PartialEq, Eq, Structural)]
pub struct Viewport {
    pub width: u32,
    pub height: u32,
}

/// One indexed triangle-list draw: bind mesh instance `mesh`'s vertex
/// buffer, index buffer and texture, then draw all of its indices.
#[derive(Clone, Copy, Debug, PartialEq, Eq, Structural)]
pub struct DrawCommand {
    pub mesh: usize,
}

/// Everything one frame needs: clear both buffers, apply `state`, then run
/// `draws` in order against `viewport`.
#[derive(Debug)]
pub struct FramePlan {
    pub viewport: Viewport,
    pub state: RenderState,
    pub draws: Vec<DrawCommand>,
}

/// The render state every frame of this pipeline uses.
pub open spec fn fixed_render_state() -> RenderState {
    RenderState { depth_test: true, depth_write: true, cull_ccw_backfaces: true }
}

/// What a well-formed plan for `mesh_count` mesh instances on a
/// `width` x `height` framebuffer says: fixed state, and the draws visit
/// every mesh instance exactly once, in load order.
pub open spec fn plan_is_for(p: FramePlan, mesh_count: int, width: u32, height: u32) -> bool {
    &&& p.viewport == (Viewport { width, height })
    &&& p.state == fixed_render_state()
    &&& p.draws@.len() == mesh_count
    &&& forall|i: int| 0 <= i < mesh_count ==> (#[trigger] p.draws@[i]).mesh == i
}

/// Build the plan for one frame over `mesh_count` mesh instances.
pub fn frame_plan(mesh_count: usize, width: u32, height: u32) -> (p: FramePlan)
    requires
        height != 0,
    ensures
        plan_is_for(p, mesh_count as int, width, height),
{
    let mut draws: Vec<DrawCommand> = Vec::new();
    let mut i: usize = 0;
    while i < mesh_count
        invariant
            i <= mesh_count,
            draws@.len() == i,
            forall|j: int| 0 <= j < i ==> (#[trigger] draws@[j]).mesh == j,
        decreases mesh_count - i,
    {
        draws.push(DrawCommand { mesh: i });
        i = i + 1;
    }
    FramePlan {
        viewport: Viewport { width, height },
        state: RenderState { depth_test: true, depth_write: true, cull_ccw_backfaces: true },
        draws,
    }
}

/// Physical framebuffer size of a widget: its logical size times the
/// display scale factor, as the surface reports it to the renderer.
pub fn scaled_framebuffer_size(width: i32, height: i32, scale: i32) -> (r: (u32, u32))
    requires
        0 <= width,
        0 <= height,
        0 <= scale,
        width * scale <= u32::MAX,
        height * scale <= u32::MAX,
    ensures
        r.0 == width * scale,
        r.1 == height * scale,
{
    ((width as u32) * (scale as u32), (height as u32) * (scale as u32))
}

} // verus!
