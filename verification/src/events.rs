//! Reactions to window events and to frame acquisition: the decisions the
//! event loop takes, separated from the calls that carry them out.

use crate::surface::SurfaceDims;
use vstd::prelude::*;

verus! {

/// Number of vertices one draw call covers: the shape is shaded over a
/// single triangle.
pub const VERTEX_COUNT: u32 = 3;

/// Number of instances one draw call covers.
pub const INSTANCE_COUNT: u32 = 1;

/// What the window system reports, reduced to the cases the demo reacts to.
#[derive(Clone, Copy, Debug, PartialEq, Eq, Structural)]
pub enum WindowSignal {
    CloseRequested,
    Resized { width: u32, height: u32 },
    RedrawRequested,
    Other,
}

/// What the event loop must do in response to a window signal.
#[derive(Clone, Copy, Debug, PartialEq, Eq, Structural)]
pub enum Reaction {
    /// Leave the event loop.
    Exit,
    /// Reconfigure the surface to the new dimensions, then ask for a redraw.
    Reconfigure,
    /// Draw one frame.
    Render,
    /// Do nothing.
    Ignore,
}

/// Decide what a window signal calls for, updating the tracked surface
/// dimensions where a resize is accepted. A resize to a size with a zero
/// side is ignored, since a surface cannot be configured with it; closing
/// exits; a redraw request renders; everything else is ignored.
pub fn react(dims: &mut SurfaceDims, signal: &WindowSignal) -> (r: Reaction)
    ensures
        match *signal {
            WindowSignal::CloseRequested => r == Reaction::Exit && *final(dims) == *old(dims),
            WindowSignal::Resized { width, height } => if width > 0 && height > 0 {
                r == Reaction::Reconfigure && *final(dims) == (SurfaceDims { width, height })
            } else {
                r == Reaction::Ignore && *final(dims) == *old(dims)
            },
            WindowSignal::RedrawRequested => r == Reaction::Render && *final(dims) == *old(dims),
            WindowSignal::Other => r == Reaction::Ignore && *final(dims) == *old(dims),
        },
        old(dims).wf() ==> final(dims).wf(),
{
    match signal {
        WindowSignal::CloseRequested => Reaction::Exit,
        WindowSignal::Resized { width, height } => {
            if dims.apply_resize(*width, *height) {
                Reaction::Reconfigure
            } else {
                Reaction::Ignore
            }
        },
        WindowSignal::RedrawRequested => Reaction::Render,
        WindowSignal::Other => Reaction::Ignore,
    }
}

/// The outcome of asking the surface for the next frame, reduced to the
/// cases the demo distinguishes.
#[derive(Clone, Copy, Debug, PartialEq, Eq, Structural)]
pub enum FrameAcquire {
    /// A frame was handed out.
    Acquired,
    /// The surface no longer matches the window and must be reconfigured
    /// before it can present; the frame is skipped without a report.
    OutdatedSurface,
    /// Any other failure.
    OtherFailure,
}

/// What one frame request leads to.
#[derive(Clone, Copy, Debug, PartialEq, Eq, Structural)]
pub enum FrameStep {
    /// Encode and submit the render pass, then present.
    Draw,
    /// Drop the frame silently.
    SkipQuietly,
    /// Report the failure, then drop the frame.
    ReportAndSkip,
}

/// Decide what one frame request leads to: a frame in hand is drawn, an
/// outdated surface is skipped silently, and any other failure is
/// reported and skipped.
pub fn frame_step(acquire: &FrameAcquire) -> (step: FrameStep)
    ensures
        step == (match *acquire {
            FrameAcquire::Acquired => FrameStep::Draw,
            FrameAcquire::OutdatedSurface => FrameStep::SkipQuietly,
            FrameAcquire::OtherFailure => FrameStep::ReportAndSkip,
        }),
{
    match acquire {
        FrameAcquire::Acquired => FrameStep::Draw,
        FrameAcquire::OutdatedSurface => FrameStep::SkipQuietly,
        FrameAcquire::OtherFailure => FrameStep::ReportAndSkip,
    }
}

} // verus!
