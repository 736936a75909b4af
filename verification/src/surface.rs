//! Surface dimensions: the window's presentable size as the renderer
//! tracks it, and the rule for accepting a resize.

use vstd::prelude::*;

verus! {

/// Width, in pixels, that the window is created with.
pub const INITIAL_WIDTH: u32 = 800;

/// Height, in pixels, that the window is created with.
pub const INITIAL_HEIGHT: u32 = 600;

/// How many frames the presentation engine may queue ahead.
pub const DESIRED_FRAME_LATENCY: u32 = 2;

/// The dimensions a surface is configured with. A surface can only be
/// configured with a positive width and height, which is the type's
/// well-formedness condition.
#[derive(Clone, Copy, Debug, PartialEq, Eq, Structural)]
pub struct SurfaceDims {
    pub width: u32,
    pub height: u32,
}

impl SurfaceDims {
    /// Both sides are positive: the only dimensions a surface accepts.
    pub open spec fn wf(self) -> bool {
        self.width > 0 && self.height > 0
    }

    /// The dimensions the demo starts with.
    pub fn initial() -> (dims: SurfaceDims)
        ensures
            dims.width == INITIAL_WIDTH,
            dims.height == INITIAL_HEIGHT,
            dims.wf(),
    {
        SurfaceDims { width: INITIAL_WIDTH, height: INITIAL_HEIGHT }
    }

    /// Accept a reported resize exactly when both sides are positive;
    /// otherwise keep the current dimensions. Returns whether the new
    /// size was taken, i.e. whether the surface must be reconfigured.
    pub fn apply_resize(&mut self, width: u32, height: u32) -> (accepted: bool)
        ensures
            accepted == (width > 0 && height > 0),
            accepted ==> *final(self) == (SurfaceDims { width, height }),
            !accepted ==> *final(self) == *old(self),
            old(self).wf() ==> final(self).wf(),
    {
        if width > 0 && height > 0 {
            self.width = width;
            self.height = height;
            true
        } else {
            false
        }
    }
}

} // verus!
