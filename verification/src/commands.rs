//! The per-frame command recording plan.
//!
//! Each frame records one primary, one-time-submit command buffer whose
//! content is the same fixed sequence, parameterized only by the surface
//! extent: set viewport and scissor to the full surface, begin the single
//! render pass (clearing the color attachment and keeping the result), bind
//! the pipeline, draw three vertices in one instance, end the pass, finish
//! recording. The platform layer replays each step against the real command
//! buffer.

use vstd::prelude::*;
use crate::extent::Extent2d;

verus! {

/// An axis-aligned pixel rectangle, used for the viewport and scissor.
#[derive(Clone, Copy, Debug, PartialEq, Eq, Structural)]
pub struct RectArea {
    pub x: u32,
    pub y: u32,
    pub width: u32,
    pub height: u32,
}

/// One step of the recorded command sequence.
#[derive(Clone, Copy, Debug, PartialEq, Eq, Structural)]
pub enum RenderCommand {
    /// Begin recording a primary, one-time-submit command buffer.
    BeginRecording,
    SetViewport(RectArea),
    SetScissor(RectArea),
    /// Begin the render pass over the given render area, clearing the color
    /// attachment on load and keeping it on store.
    BeginRenderPass(RectArea),
    BindPipeline,
    Draw { vertex_count: u32, instance_count: u32 },
    EndRenderPass,
    FinishRecording,
}

/// The full-surface rectangle for the given extent.
pub open spec fn full_rect(extent: Extent2d) -> RectArea {
    RectArea { x: 0, y: 0, width: extent.width, height: extent.height }
}

/// The fixed recording order of every successfully recorded frame; only the
/// rectangle varies, with the surface extent.
pub open spec fn recorded_commands(extent: Extent2d) -> Seq<RenderCommand> {
    let r = full_rect(extent);
    seq![
        RenderCommand::BeginRecording,
        RenderCommand::SetViewport(r),
        RenderCommand::SetScissor(r),
        RenderCommand::BeginRenderPass(r),
        RenderCommand::BindPipeline,
        RenderCommand::Draw { vertex_count: 3, instance_count: 1 },
        RenderCommand::EndRenderPass,
        RenderCommand::FinishRecording,
    ]
}

/// Produces the command sequence to record for a frame rendered at the
/// given extent: exactly the fixed order above, nothing conditional.
pub fn record_frame_commands(extent: Extent2d) -> (r: Vec<RenderCommand>)
    ensures
        r@ == recorded_commands(extent),
{
    let rect = RectArea { x: 0, y: 0, width: extent.width, height: extent.height };
    let mut commands: Vec<RenderCommand> = Vec::new();
    commands.push(RenderCommand::BeginRecording);
    commands.push(RenderCommand::SetViewport(rect));
    commands.push(RenderCommand::SetScissor(rect));
    commands.push(RenderCommand::BeginRenderPass(rect));
    commands.push(RenderCommand::BindPipeline);
    commands.push(RenderCommand::Draw { vertex_count: 3, instance_count: 1 });
    commands.push(RenderCommand::EndRenderPass);
    commands.push(RenderCommand::FinishRecording);
    proof {
        assert(commands@ =~= recorded_commands(extent));
    }
    commands
}

} // verus!
