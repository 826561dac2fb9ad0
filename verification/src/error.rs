//! The engine's error taxonomy.
//!
//! Construction errors abort `build` at the first failing creation step; no
//! partial engine is returned. Runtime fence errors are fatal: an
//! unresponsive device has no recovery path here. Staleness of the
//! swapchain is not an error at all; it only marks the swapchain for
//! reconfiguration and skips the frame.

use vstd::prelude::*;

verus! {

/// Which GPU object or platform step failed while building the engine. The
/// first failure aborts construction.
#[derive(Clone, Copy, Debug, PartialEq, Eq, Structural)]
pub enum EngineError {
    BuildMainWindowError,
    CreateGfxInstanceError,
    CreateGfxSurfaceError,
    GetQueueFamilyError,
    CreateGpuError,
    GetQueueGroupError,
    CreateCommandPoolError,
    CreateRenderPassError,
    CreatePipelineLayoutError,
    CreateShaderModule,
    CreateGraphicsPipelineError,
    CreateFenceError,
    CreateSemaphoreError,
}

/// The message shown for each construction failure.
pub open spec fn engine_error_message(e: EngineError) -> Seq<char> {
    match e {
        EngineError::BuildMainWindowError => "failed to create main window"@,
        EngineError::CreateGfxInstanceError => "unsupported gfx backend"@,
        EngineError::CreateGfxSurfaceError => "failed to create gfx surface"@,
        EngineError::GetQueueFamilyError => "unsupported gfx queue family for graphic pipeline"@,
        EngineError::CreateGpuError => "failed to create gfx gpu"@,
        EngineError::GetQueueGroupError => "failed to get queue group at selected queue family"@,
        EngineError::CreateCommandPoolError => "failed to create gfx command pool"@,
        EngineError::CreateRenderPassError => "failed to create gfx render pass"@,
        EngineError::CreatePipelineLayoutError => "failed to create gfx pipeline layout"@,
        EngineError::CreateShaderModule => "failed to create shader module"@,
        EngineError::CreateGraphicsPipelineError => "failed to create graphics pipeline"@,
        EngineError::CreateFenceError => "failed to create fence"@,
        EngineError::CreateSemaphoreError => "failed to create semaphore"@,
    }
}

impl EngineError {
    /// A descriptive message identifying which step failed to create.
    pub fn message(&self) -> (r: &'static str)
        ensures
            r@ == engine_error_message(*self),
    {
        match self {
            EngineError::BuildMainWindowError => "failed to create main window",
            EngineError::CreateGfxInstanceError => "unsupported gfx backend",
            EngineError::CreateGfxSurfaceError => "failed to create gfx surface",
            EngineError::GetQueueFamilyError => "unsupported gfx queue family for graphic pipeline",
            EngineError::CreateGpuError => "failed to create gfx gpu",
            EngineError::GetQueueGroupError => "failed to get queue group at selected queue family",
            EngineError::CreateCommandPoolError => "failed to create gfx command pool",
            EngineError::CreateRenderPassError => "failed to create gfx render pass",
            EngineError::CreatePipelineLayoutError => "failed to create gfx pipeline layout",
            EngineError::CreateShaderModule => "failed to create shader module",
            EngineError::CreateGraphicsPipelineError => "failed to create graphics pipeline",
            EngineError::CreateFenceError => "failed to create fence",
            EngineError::CreateSemaphoreError => "failed to create semaphore",
        }
    }
}

/// A fatal per-frame failure: the completion fence was not observed
/// signaled. Neither is retried; the platform layer terminates on them as
/// it would on a panic.
#[derive(Clone, Copy, Debug, PartialEq, Eq, Structural)]
pub enum RenderError {
    /// The fence wait exceeded its bounded timeout: the device missed a
    /// deadline a healthy device never misses.
    FenceTimeout,
    /// The fence wait itself failed: out of memory or device lost.
    FenceWaitFailed,
}

/// The message shown for each fatal per-frame failure.
pub open spec fn render_error_message(e: RenderError) -> Seq<char> {
    match e {
        RenderError::FenceTimeout => "timed out waiting for the frame completion fence"@,
        RenderError::FenceWaitFailed => "Out of memory or device lost"@,
    }
}

impl RenderError {
    /// A descriptive message for the fatal condition.
    pub fn message(&self) -> (r: &'static str)
        ensures
            r@ == render_error_message(*self),
    {
        match self {
            RenderError::FenceTimeout => "timed out waiting for the frame completion fence",
            RenderError::FenceWaitFailed => "Out of memory or device lost",
        }
    }
}

} // verus!
