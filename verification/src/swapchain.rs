//! The surface negotiator's state: the target extent, the chosen color
//! format, and the dirty flag that records whether the swapchain must be
//! (re)configured before the next image can be acquired.

use vstd::prelude::*;
use crate::extent::Extent2d;
use crate::surface::{FormatId, SurfaceCaps, SwapchainConfig, planned_config};

verus! {

/// Swapchain negotiation state. `dirty` is true from construction until the
/// first successful configuration, and again after any resize or staleness
/// signal, until the next configuration.
#[derive(Clone, Copy, Debug, PartialEq, Eq, Structural)]
pub struct SwapchainState {
    pub dirty: bool,
    pub extent: Extent2d,
    pub color_format: FormatId,
}

/// What `configure` does to the negotiator's state: while dirty, the planned
/// configuration is applied, the applied extent stored and the dirty flag
/// cleared; otherwise nothing changes.
pub open spec fn configure_spec(s: SwapchainState, caps: SurfaceCaps) -> SwapchainState {
    if s.dirty {
        SwapchainState {
            dirty: false,
            extent: planned_config(caps, s.color_format, s.extent).extent,
            color_format: s.color_format,
        }
    } else {
        s
    }
}

/// What a resize does: the new target extent is stored and the swapchain is
/// marked for reconfiguration, regardless of prior state.
pub open spec fn resize_spec(s: SwapchainState, width: u32, height: u32) -> SwapchainState {
    SwapchainState {
        dirty: true,
        extent: Extent2d { width, height },
        color_format: s.color_format,
    }
}

/// What a staleness signal (failed acquire or failed present) does: the
/// swapchain is marked for reconfiguration.
pub open spec fn stale_spec(s: SwapchainState) -> SwapchainState {
    SwapchainState { dirty: true, extent: s.extent, color_format: s.color_format }
}

impl SwapchainState {
    /// The negotiator starts dirty: nothing is configured until the first
    /// `configure`.
    pub fn new(color_format: FormatId, extent: Extent2d) -> (r: SwapchainState)
        ensures
            r.dirty == true,
            r.extent == extent,
            r.color_format == color_format,
    {
        SwapchainState { dirty: true, extent, color_format }
    }

    /// Computes the configuration to apply to the surface, but only while
    /// the state is dirty; clears the dirty flag and stores the applied
    /// extent (which may differ from the request by clamping). Returns the
    /// configuration for the platform layer to apply, `None` when the
    /// swapchain was already configured. A failure to apply it is fatal to
    /// the caller, so no state survives one.
    pub fn configure(&mut self, caps: &SurfaceCaps) -> (r: Option<SwapchainConfig>)
        ensures
            *final(self) == configure_spec(*old(self), *caps),
            r == (if old(self).dirty {
                Some(planned_config(*caps, old(self).color_format, old(self).extent))
            } else {
                None::<SwapchainConfig>
            }),
    {
        if self.dirty {
            let config = crate::surface::plan_swapchain_config(caps, self.color_format, self.extent);
            self.extent = config.extent;
            self.dirty = false;
            Some(config)
        } else {
            None
        }
    }

    /// Records a reported window size change: always marks the swapchain
    /// for reconfiguration and stores the new target extent.
    pub fn window_size_changed(&mut self, new_size: [u32; 2])
        ensures
            *final(self) == resize_spec(*old(self), new_size[0], new_size[1]),
            final(self).dirty == true,
    {
        self.dirty = true;
        self.extent = Extent2d { width: new_size[0], height: new_size[1] };
    }

    /// Records a staleness signal from acquire or present: the swapchain
    /// must be reconfigured before the next frame can present.
    pub fn mark_stale(&mut self)
        ensures
            *final(self) == stale_spec(*old(self)),
            final(self).dirty == true,
    {
        self.dirty = true;
    }
}

} // verus!
