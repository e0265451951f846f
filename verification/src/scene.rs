//! The compiled scene and its lifecycle.
//!
//! A [`SceneModel`] is built exactly once per "surface became usable"
//! transition and torn down exactly once per "surface became unusable"
//! transition; between the two, any number of frames (including zero) may
//! be drawn from it. [`SurfaceState`] is the state machine the host drives
//! with its lifecycle events: it decides when a scene exists, what each
//! redraw request answers, and what a failed frame does to the scene.

use vstd::prelude::*;

use crate::errors::{DrawError, LoadError};
use crate::geometry::GpuVertex;
use crate::render::{frame_plan, plan_is_for, FramePlan};

verus! {

/// One texture, normalized to RGBA8: exactly `width * height * 4` bytes,
/// in pixel order.
#[derive(Debug)]
pub struct Texture {
    pub width: u32,
    pub height: u32,
    pub rgba: Vec<u8>,
}

/// One GPU-resident drawable: an interleaved vertex buffer, a triangle-list
/// index buffer, and the base-color texture its material resolved to.
/// Created once at load time and immutable until the scene is torn down.
#[derive(Debug)]
pub struct MeshInstance {
    pub vertices: Vec<GpuVertex>,
    pub indices: Vec<u32>,
    pub texture: Texture,
}

/// The compiled resource set of one loaded asset: the ordered mesh
/// instances, drawn in load order under one shared shading program.
#[derive(Debug)]
pub struct SceneModel {
    pub meshes: Vec<MeshInstance>,
}

/// Whether a scene currently exists for the drawing surface. Loading is
/// synchronous inside the realize transition, so it has no observable
/// intermediate state: realize either reaches `Ready` or stays
/// `Unrealized`.
#[derive(Debug)]
pub enum SceneState {
    Unrealized,
    Ready(SceneModel),
}

/// The per-surface state the host events drive: the scene slot and a
/// frame counter that every redraw request advances.
#[derive(Debug)]
pub struct SurfaceState {
    pub scene: SceneState,
    pub frame_counter: u32,
}

impl SurfaceState {
    /// A fresh surface: no scene, no frames counted.
    pub fn new() -> (r: SurfaceState)
        ensures
            r.scene is Unrealized,
            r.frame_counter == 0,
    {
        SurfaceState { scene: SceneState::Unrealized, frame_counter: 0 }
    }

    /// The surface became usable and a load was attempted. A successful
    /// load installs its scene; a failed one leaves the surface without a
    /// scene (no partial scene is ever installed), and later redraw
    /// requests are answered with no plan.
    pub fn realize(&mut self, outcome: Result<SceneModel, LoadError>)
        requires
            old(self).scene is Unrealized,
        ensures
            final(self).frame_counter == old(self).frame_counter,
            match outcome {
                Ok(model) => final(self).scene == SceneState::Ready(model),
                Err(_) => final(self).scene is Unrealized,
            },
    {
        match outcome {
            Ok(model) => {
                self.scene = SceneState::Ready(model);
            },
            Err(_) => {},
        }
    }

    /// The surface became unusable: the scene (if any) is torn down.
    pub fn unrealize(&mut self)
        ensures
            final(self).scene is Unrealized,
            final(self).frame_counter == old(self).frame_counter,
    {
        self.scene = SceneState::Unrealized;
    }

    /// A redraw request on a `width` x `height` framebuffer. With a ready
    /// scene it yields the plan for one frame over that scene's mesh
    /// instances; without one it yields nothing. Either way the request is
    /// counted (the counter wraps around at its limit).
    pub fn render(&mut self, width: u32, height: u32) -> (r: Option<FramePlan>)
        requires
            height != 0,
        ensures
            final(self).scene == old(self).scene,
            final(self).frame_counter as int == (old(self).frame_counter + 1) % 0x1_0000_0000,
            match old(self).scene {
                SceneState::Ready(model) => {
                    &&& r is Some
                    &&& plan_is_for(r->0, model.meshes@.len() as int, width, height)
                },
                SceneState::Unrealized => r is None,
            },
    {
        let r = match &self.scene {
            SceneState::Ready(model) => Some(frame_plan(model.meshes.len(), width, height)),
            SceneState::Unrealized => None,
        };
        self.frame_counter = if self.frame_counter == u32::MAX {
            0
        } else {
            self.frame_counter + 1
        };
        r
    }

    /// What became of one drawn frame. A frame that failed mid-draw is not
    /// presented, and the scene ceases to draw further frames: GPU state
    /// cannot be safely isolated mid-frame, so the scene is torn down
    /// rather than drawn from again.
    pub fn frame_outcome(&mut self, outcome: Result<(), DrawError>) -> (presented: bool)
        ensures
            presented <==> outcome is Ok,
            outcome is Ok ==> *final(self) == *old(self),
            outcome is Err ==> final(self).scene is Unrealized && final(self).frame_counter
                == old(self).frame_counter,
    {
        match outcome {
            Ok(_) => true,
            Err(_) => {
                self.scene = SceneState::Unrealized;
                false
            },
        }
    }
}

} // verus!
