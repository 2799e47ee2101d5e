use crate::grid::GridExtent;
use vstd::prelude::*;

verus! {

/// Outcome of trying to acquire the next presentation image, as reported by
/// the surface. `Acquired` is success; the others mirror the transient and
/// fatal acquisition errors a swapchain can return.
#[derive(Clone, Copy, PartialEq, Eq, Structural, Debug)]
pub enum AcquireStatus {
    Acquired,
    Timeout,
    Outdated,
    Lost,
    OutOfMemory,
}

/// What the render loop does with the current frame.
#[derive(Clone, Copy, PartialEq, Eq, Structural, Debug)]
pub enum FrameAction {
    /// Record and submit the frame, then present it.
    Render,
    /// Drop the frame without a report: the surface is merely stale, as
    /// happens while the window is minimized.
    SkipSilent,
    /// Drop the frame and report the error; the process continues.
    SkipReport,
}

/// The frame decision for an acquisition outcome: render on success, skip
/// silently on a stale surface, skip with a report on any other error.
pub open spec fn spec_plan_frame(s: AcquireStatus) -> FrameAction {
    match s {
        AcquireStatus::Acquired => FrameAction::Render,
        AcquireStatus::Outdated => FrameAction::SkipSilent,
        AcquireStatus::Timeout => FrameAction::SkipReport,
        AcquireStatus::Lost => FrameAction::SkipReport,
        AcquireStatus::OutOfMemory => FrameAction::SkipReport,
    }
}

/// Decides the current frame from the surface-acquisition outcome. A frame
/// is never aborted by panicking: every error maps to a skip.
pub fn plan_frame(s: AcquireStatus) -> (a: FrameAction)
    ensures
        a == spec_plan_frame(s),
{
    match s {
        AcquireStatus::Acquired => FrameAction::Render,
        AcquireStatus::Outdated => FrameAction::SkipSilent,
        AcquireStatus::Timeout => FrameAction::SkipReport,
        AcquireStatus::Lost => FrameAction::SkipReport,
        AcquireStatus::OutOfMemory => FrameAction::SkipReport,
    }
}

/// Size of the presentation surface in pixels.
#[derive(Clone, Copy, PartialEq, Eq, Structural, Debug)]
pub struct SurfaceConfig {
    pub width: u32,
    pub height: u32,
}

/// The per-process render state the resize rule speaks about: the mutable
/// surface configuration, and the grid extent that the volume and the
/// worst-case geometry buffers were allocated for. The grid is fixed for
/// the life of the process; a resize never touches it.
pub struct RenderState {
    pub surface: SurfaceConfig,
    pub grid: GridExtent,
}

impl RenderState {
    pub fn new(surface: SurfaceConfig, grid: GridExtent) -> (s: RenderState)
        ensures
            s.surface == surface,
            s.grid == grid,
    {
        RenderState { surface, grid }
    }

    /// Applies a window resize. A zero-area size (a minimized window) must
    /// not reconfigure the surface; any other size replaces the surface
    /// configuration. The grid extent — and with it the volume and the
    /// geometry-buffer capacities, which are functions of it — is unchanged
    /// either way.
    pub fn handle_resize(&mut self, width: u32, height: u32) -> (reconfigured: bool)
        ensures
            reconfigured == (width > 0 && height > 0),
            reconfigured ==> final(self).surface.width == width
                && final(self).surface.height == height,
            !reconfigured ==> final(self).surface == old(self).surface,
            final(self).grid == old(self).grid,
    {
        if width > 0 && height > 0 {
            self.surface = SurfaceConfig { width, height };
            true
        } else {
            false
        }
    }
}

} // verus!
