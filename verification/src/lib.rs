//! Swapchain lifecycle and frame-presentation core for per-window GPU
//! rendering.
//!
//! The library verifies the decisions a renderer makes each frame: when the
//! swapchain and its framebuffer set must be rebuilt, how an acquisition
//! outcome is classified and retried, which device and composite-alpha mode
//! the bootstrap picks, how physical pixels map to logical units, and how
//! per-window render contexts and presentation order are tracked. The GPU,
//! the windowing system and the drawing backend are outside collaborators:
//! a host performs their calls and feeds the outcomes back in as plain
//! values.

use vstd::prelude::*;

pub mod context;
pub mod device;
pub mod geometry;
pub mod renderer;
pub mod swapchain;

verus! {

/// A fatal error from the rendering core. Transient conditions (a stale
/// swapchain, a zero-area window, a failed present submission) are handled
/// inline and never surface as errors.
#[derive(Clone, Copy, PartialEq, Eq, Structural, Debug)]
pub enum RenderError {
    /// No physical device supports both the swapchain extension and a queue
    /// family capable of graphics and presentation.
    NoSuitableDevice,
    /// The platform failed an image acquisition with an error other than
    /// out-of-date.
    AcquisitionFailed,
    /// The swapchain's color format has no matching drawing-surface color
    /// type, so no surface can be bound over its images.
    UnsupportedFormat,
}

} // verus!
