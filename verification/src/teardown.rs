//! The shutdown plan for the engine's long-lived GPU objects.
//!
//! The engine owns its render pass, pipeline layout, pipeline, command pool
//! and synchronization primitives for its whole lifetime and destroys them
//! exactly once, at shutdown, in reverse dependency order. The platform
//! layer executes each step in the order given here; this is the only
//! teardown entry point, whichever exit path reaches it.

use vstd::prelude::*;

verus! {

/// One destruction step of the shutdown sequence.
#[derive(Clone, Copy, Debug, PartialEq, Eq, Structural)]
pub enum TeardownStep {
    Semaphore,
    Fence,
    Pipeline,
    PipelineLayout,
    RenderPass,
    CommandPool,
    UnconfigureSwapchain,
    Surface,
}

/// The fixed destruction order: synchronization primitives first, then the
/// pipeline before the layout it was built on, the layout before the render
/// pass, the render pass before the command pool, and the surface last.
pub open spec fn teardown_order() -> Seq<TeardownStep> {
    seq![
        TeardownStep::Semaphore,
        TeardownStep::Fence,
        TeardownStep::Pipeline,
        TeardownStep::PipelineLayout,
        TeardownStep::RenderPass,
        TeardownStep::CommandPool,
        TeardownStep::UnconfigureSwapchain,
        TeardownStep::Surface,
    ]
}

/// Produces the shutdown steps, in the exact order the platform layer must
/// destroy the objects in.
pub fn teardown_steps() -> (r: Vec<TeardownStep>)
    ensures
        r@ == teardown_order(),
{
    let mut steps: Vec<TeardownStep> = Vec::new();
    steps.push(TeardownStep::Semaphore);
    steps.push(TeardownStep::Fence);
    steps.push(TeardownStep::Pipeline);
    steps.push(TeardownStep::PipelineLayout);
    steps.push(TeardownStep::RenderPass);
    steps.push(TeardownStep::CommandPool);
    steps.push(TeardownStep::UnconfigureSwapchain);
    steps.push(TeardownStep::Surface);
    proof {
        assert(steps@ =~= teardown_order());
    }
    steps
}

/// Teardown destroys the pipeline before the pipeline layout, the layout
/// before the render pass, and the render pass before the command pool:
/// reverse dependency order, in the one shutdown plan every exit path uses.
pub proof fn lemma_teardown_dependency_order()
    ensures
        teardown_order()[2] == TeardownStep::Pipeline,
        teardown_order()[3] == TeardownStep::PipelineLayout,
        teardown_order()[4] == TeardownStep::RenderPass,
        teardown_order()[5] == TeardownStep::CommandPool,
        forall|i: int| 0 <= i < teardown_order().len() && teardown_order()[i] == TeardownStep::Pipeline ==> i == 2,
        forall|i: int| 0 <= i < teardown_order().len() && teardown_order()[i] == TeardownStep::PipelineLayout ==> i == 3,
        forall|i: int| 0 <= i < teardown_order().len() && teardown_order()[i] == TeardownStep::RenderPass ==> i == 4,
        forall|i: int| 0 <= i < teardown_order().len() && teardown_order()[i] == TeardownStep::CommandPool ==> i == 5,
{
}

} // verus!
