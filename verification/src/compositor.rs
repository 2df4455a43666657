//! The offscreen compositor: owns the fixed-size color buffer, the role
//! tags of the two cameras and the canvas quad, and the display scale it
//! keeps in sync with the window size through the resolution policy.
//!
//! The host engine performs the actual allocation, spawning and rendering;
//! this state records every decision it needs: buffer size, render order,
//! layer split, and the current scale.

use vstd::prelude::*;

verus! {

use crate::scale::{compute_scale, scale_spec, FixedResolution, Scale};

/// The scene camera renders into the buffer strictly before the display
/// camera renders the canvas quad.
pub const SCENE_CAMERA_ORDER: i64 = -1;

/// Render order of the display camera.
pub const DISPLAY_CAMERA_ORDER: i64 = 0;

/// Render layer of the 3D scene, seen only by the scene camera.
pub const SCENE_LAYER: u8 = 0;

/// Render layer of the canvas quad, seen only by the display camera; kept
/// disjoint from `SCENE_LAYER` so the display pass never sees the scene.
pub const DISPLAY_LAYER: u8 = 1;

/// The three entities the compositor wires together: the scene camera that
/// renders into the buffer, the display camera that renders the canvas
/// quad, and the canvas quad that samples the buffer.
#[derive(Clone, Copy, Debug, PartialEq, Eq, Structural)]
pub struct CompositorRoles {
    pub scene_camera: u64,
    pub display_camera: u64,
    pub canvas: u64,
}

impl CompositorRoles {
    /// The three roles are played by three distinct entities.
    pub open spec fn wf(self) -> bool {
        &&& self.scene_camera != self.display_camera
        &&& self.scene_camera != self.canvas
        &&& self.display_camera != self.canvas
    }
}

/// The offscreen color buffer: sized exactly to the fixed resolution at
/// startup and never resized afterwards — window resizes only change the
/// display scale.
#[derive(Clone, Copy, Debug, PartialEq, Eq, Structural)]
pub struct OffscreenBuffer {
    pub width: u32,
    pub height: u32,
}

/// The compositor state.
#[derive(Clone, Copy, Debug, PartialEq, Eq, Structural)]
pub struct Compositor {
    pub fixed: FixedResolution,
    pub buffer: OffscreenBuffer,
    pub scale: Scale,
    pub roles: CompositorRoles,
    /// Render order of the scene camera; strictly before the display
    /// camera's, so the buffer is filled before it is sampled.
    pub scene_order: i64,
    /// Render order of the display camera.
    pub display_order: i64,
    /// Render layer of the display pass, disjoint from the scene's layer
    /// so the display camera only ever sees the canvas quad.
    pub display_layer: u8,
}

impl Compositor {
    /// The buffer matches the fixed resolution exactly, the scale is one
    /// the resolution policy can produce, and the roles are distinct.
    pub open spec fn wf(self) -> bool {
        &&& self.fixed.wf()
        &&& self.buffer.width == self.fixed.width
        &&& self.buffer.height == self.fixed.height
        &&& self.scale.wf()
        &&& self.roles.wf()
        &&& self.scene_order < self.display_order
        &&& self.display_layer != SCENE_LAYER
    }

    /// Builds the compositor at startup: the buffer takes the fixed
    /// resolution, and the display scale comes from the resolution policy
    /// at the startup window size.
    pub fn initialize(
        fixed: FixedResolution,
        win_width: u32,
        win_height: u32,
        roles: CompositorRoles,
    ) -> (c: Compositor)
        requires
            fixed.wf(),
            win_width >= 1,
            win_height >= 1,
            roles.wf(),
        ensures
            c.fixed == fixed,
            c.buffer.width == fixed.width,
            c.buffer.height == fixed.height,
            c.scale == scale_spec(
                fixed.width as int,
                fixed.height as int,
                win_width as int,
                win_height as int,
            ),
            c.roles == roles,
            c.scene_order < c.display_order,
            c.display_layer != SCENE_LAYER,
            c.wf(),
    {
        let scale: Scale = compute_scale(&fixed, win_width, win_height);
        Compositor {
            fixed,
            buffer: OffscreenBuffer { width: fixed.width, height: fixed.height },
            scale,
            roles,
            scene_order: SCENE_CAMERA_ORDER,
            display_order: DISPLAY_CAMERA_ORDER,
            display_layer: DISPLAY_LAYER,
        }
    }

    /// The whole effect of one resize notification: the scale is
    /// recomputed from the unchanged fixed resolution, nothing else moves.
    pub open spec fn resize_spec(self, w: int, h: int) -> Compositor {
        Compositor {
            scale: scale_spec(self.fixed.width as int, self.fixed.height as int, w, h),
            ..self
        }
    }

    /// Reacts to a window-resize notification: recomputes the display
    /// scale via the resolution policy and applies it immediately, with no
    /// interpolation.  The buffer keeps its size.
    pub fn on_window_resized(&mut self, new_width: u32, new_height: u32)
        requires
            old(self).wf(),
            new_width >= 1,
            new_height >= 1,
        ensures
            *final(self) == old(self).resize_spec(new_width as int, new_height as int),
            final(self).fixed == old(self).fixed,
            final(self).buffer == old(self).buffer,
            final(self).roles == old(self).roles,
            final(self).wf(),
    {
        self.scale = compute_scale(&self.fixed, new_width, new_height);
    }

    /// Resize updates are idempotent: a second notification with the same
    /// size leaves the state exactly where the first one put it.
    pub proof fn lemma_resize_idempotent(self, w: int, h: int)
        ensures
            self.resize_spec(w, h).resize_spec(w, h) == self.resize_spec(w, h),
    {
    }

    /// When several resize notifications arrive in one frame, only the
    /// last is authoritative: each overwrites the previous scale whole.
    pub proof fn lemma_resize_last_wins(self, w1: int, h1: int, w2: int, h2: int)
        ensures
            self.resize_spec(w1, h1).resize_spec(w2, h2) == self.resize_spec(w2, h2),
    {
    }
}

} // verus!
