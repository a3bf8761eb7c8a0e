//! Per-frame recovery policy for surface acquisition.
//!
//! Acquiring the next presentable image is the one per-frame step that can
//! fail at runtime. The policy is fixed: a lost surface is recovered by
//! reconfiguring at the current size and retrying on the next frame,
//! exhausted memory is fatal, and anything else is logged and retried on
//! the next frame.

use vstd::prelude::*;

verus! {

/// Why acquiring the next presentable surface image failed.
#[derive(Clone, Copy, Debug, PartialEq, Eq, Structural)]
pub enum SurfaceError {
    /// The swapchain is gone; the surface must be reconfigured.
    Lost,
    /// The surface no longer matches the window and must be reconfigured.
    Outdated,
    /// No image became available in time.
    Timeout,
    /// The device has no memory left for a swapchain image.
    OutOfMemory,
    /// Any other acquisition failure.
    Other,
}

/// What the frame loop does about a failed acquisition.
#[derive(Clone, Copy, Debug, PartialEq, Eq, Structural)]
pub enum FrameRecovery {
    /// Reconfigure the surface at the current size, then retry next frame.
    ResizeAndRetry,
    /// Log the error and retry next frame.
    RetryNextFrame,
    /// Unrecoverable: stop the frame loop.
    Stop,
}

/// The recovery owed to each acquisition failure: a lost surface is
/// reconfigured and retried, out-of-memory stops the loop, everything else
/// is retried as is.
pub open spec fn spec_recovery(e: SurfaceError) -> FrameRecovery {
    match e {
        SurfaceError::Lost => FrameRecovery::ResizeAndRetry,
        SurfaceError::OutOfMemory => FrameRecovery::Stop,
        SurfaceError::Outdated => FrameRecovery::RetryNextFrame,
        SurfaceError::Timeout => FrameRecovery::RetryNextFrame,
        SurfaceError::Other => FrameRecovery::RetryNextFrame,
    }
}

/// Decides how the frame loop reacts to a failed surface acquisition.
pub fn surface_error_recovery(e: SurfaceError) -> (r: FrameRecovery)
    ensures
        r == spec_recovery(e),
{
    match e {
        SurfaceError::Lost => FrameRecovery::ResizeAndRetry,
        SurfaceError::OutOfMemory => FrameRecovery::Stop,
        SurfaceError::Outdated => FrameRecovery::RetryNextFrame,
        SurfaceError::Timeout => FrameRecovery::RetryNextFrame,
        SurfaceError::Other => FrameRecovery::RetryNextFrame,
    }
}

} // verus!
