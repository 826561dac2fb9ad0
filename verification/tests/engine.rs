use gfx_basic::{
    EngineError, EngineState, Extent2d, FormatId, FormatInfo, FramePhase, RenderCommand,
    RectArea, RenderError, SurfaceCaps, SwapchainState, TeardownStep, WaitOutcome,
    RENDER_TIMEOUT_NS, plan_swapchain_config, record_frame_commands, select_color_format,
    teardown_steps,
};

fn caps(min_count: u32, max_count: u32) -> SurfaceCaps {
    SurfaceCaps {
        min_image_count: min_count,
        max_image_count: max_count,
        current_extent: None,
        min_extent: Extent2d { width: 1, height: 1 },
        max_extent: Extent2d { width: 8192, height: 8192 },
    }
}

fn fmt(code: u32) -> FormatId {
    FormatId { code }
}

#[test]
fn image_count_prefers_triple_buffering() {
    // A capability range [2, 4] contains 3: triple buffering is applied.
    let c = plan_swapchain_config(&caps(2, 4), fmt(7), Extent2d { width: 640, height: 480 });
    assert_eq!(c.image_count, 3);
}

#[test]
fn image_count_clamped_to_range() {
    // A capability range [2, 2] cannot hold 3: the count is clamped to 2.
    let c = plan_swapchain_config(&caps(2, 2), fmt(7), Extent2d { width: 640, height: 480 });
    assert_eq!(c.image_count, 2);
}

#[test]
fn image_count_raised_to_lower_bound() {
    // Three is below the supported range [4, 6]: raised to 4.
    let c = plan_swapchain_config(&caps(4, 6), fmt(7), Extent2d { width: 640, height: 480 });
    assert_eq!(c.image_count, 4);
}

#[test]
fn image_count_capped_at_upper_bound() {
    // Three is above the supported range [1, 2]: capped at 2.
    let c = plan_swapchain_config(&caps(1, 2), fmt(7), Extent2d { width: 640, height: 480 });
    assert_eq!(c.image_count, 2);
}

#[test]
fn extent_taken_from_current_when_fixed() {
    let mut cp = caps(2, 4);
    cp.current_extent = Some(Extent2d { width: 300, height: 200 });
    let c = plan_swapchain_config(&cp, fmt(7), Extent2d { width: 640, height: 480 });
    assert_eq!(c.extent, Extent2d { width: 300, height: 200 });
}

#[test]
fn extent_clamped_to_bounds() {
    let mut cp = caps(2, 4);
    cp.min_extent = Extent2d { width: 100, height: 100 };
    cp.max_extent = Extent2d { width: 500, height: 500 };
    let c = plan_swapchain_config(&cp, fmt(7), Extent2d { width: 640, height: 50 });
    assert_eq!(c.extent, Extent2d { width: 500, height: 100 });
}

#[test]
fn color_format_prefers_first_srgb() {
    let supported = vec![
        FormatInfo { id: fmt(1), srgb: false },
        FormatInfo { id: fmt(2), srgb: true },
        FormatInfo { id: fmt(3), srgb: true },
    ];
    assert_eq!(select_color_format(&supported, fmt(9)), fmt(2));
}

#[test]
fn color_format_falls_back_to_first_supported() {
    let supported = vec![
        FormatInfo { id: fmt(1), srgb: false },
        FormatInfo { id: fmt(2), srgb: false },
    ];
    assert_eq!(select_color_format(&supported, fmt(9)), fmt(1));
}

#[test]
fn color_format_falls_back_when_none_supported() {
    assert_eq!(select_color_format(&Vec::new(), fmt(9)), fmt(9));
}

fn fresh_engine() -> EngineState {
    EngineState::new(fmt(7), Extent2d { width: 640, height: 480 })
}

fn run_successful_frame(engine: &mut EngineState, cp: &SurfaceCaps) {
    engine.begin_frame(WaitOutcome::Signaled).unwrap();
    engine.configure(cp);
    assert!(engine.complete_acquire(true));
    let _commands = engine.record_commands();
    engine.finish_frame(true);
}

#[test]
fn new_engine_starts_dirty_and_idle() {
    let engine = fresh_engine();
    assert!(engine.swapchain.dirty);
    assert_eq!(engine.phase, FramePhase::Idle);
    assert_eq!(engine.swapchain.extent, Extent2d::new(640, 480));
}

#[test]
fn dirty_false_after_first_successful_frame_and_stays() {
    // With no resize and no staleness signal, dirty is false after the
    // first successful frame and remains false over later frames.
    let mut engine = fresh_engine();
    let cp = caps(2, 4);
    run_successful_frame(&mut engine, &cp);
    assert!(!engine.swapchain.dirty);
    run_successful_frame(&mut engine, &cp);
    assert!(!engine.swapchain.dirty);
    run_successful_frame(&mut engine, &cp);
    assert!(!engine.swapchain.dirty);
    assert_eq!(engine.phase, FramePhase::Idle);
}

#[test]
fn configure_applies_only_while_dirty() {
    let mut engine = fresh_engine();
    let cp = caps(2, 4);
    engine.begin_frame(WaitOutcome::Signaled).unwrap();
    let applied = engine.configure(&cp);
    assert!(applied.is_some());
    assert_eq!(applied.unwrap().image_count, 3);
    assert!(engine.complete_acquire(true));
    let _ = engine.record_commands();
    engine.finish_frame(true);

    // The second frame finds the swapchain configured: nothing to apply.
    engine.begin_frame(WaitOutcome::Signaled).unwrap();
    assert_eq!(engine.configure(&cp), None);
}

#[test]
fn window_size_changed_always_sets_dirty_and_extent() {
    let mut engine = fresh_engine();
    let cp = caps(2, 4);
    run_successful_frame(&mut engine, &cp);
    assert!(!engine.swapchain.dirty);

    engine.window_size_changed([1024, 768]);
    assert!(engine.swapchain.dirty);
    assert_eq!(engine.swapchain.extent, Extent2d { width: 1024, height: 768 });

    // Regardless of prior state: already dirty stays dirty, extent updated.
    engine.window_size_changed([320, 240]);
    assert!(engine.swapchain.dirty);
    assert_eq!(engine.swapchain.extent, Extent2d { width: 320, height: 240 });
}

#[test]
fn stale_acquire_skips_frame_and_sets_dirty() {
    let mut engine = fresh_engine();
    let cp = caps(2, 4);
    run_successful_frame(&mut engine, &cp);
    assert!(!engine.swapchain.dirty);

    // The acquire reports staleness: the frame is skipped, dirty becomes
    // true, and no command buffer is recorded for this call.
    engine.begin_frame(WaitOutcome::Signaled).unwrap();
    engine.configure(&cp);
    let recording = engine.complete_acquire(false);
    assert!(!recording);
    assert!(engine.swapchain.dirty);
    assert_eq!(engine.phase, FramePhase::Idle);
}

#[test]
fn fence_timeout_is_fatal_and_nothing_is_submitted() {
    let mut engine = fresh_engine();
    let r = engine.begin_frame(WaitOutcome::TimedOut);
    assert_eq!(r, Err(RenderError::FenceTimeout));
    // The engine did not enter the frame: no recording, no submission.
    assert_eq!(engine.phase, FramePhase::Idle);
    assert_eq!(
        r.unwrap_err().message(),
        "timed out waiting for the frame completion fence"
    );
}

#[test]
fn fence_wait_failure_is_fatal() {
    let mut engine = fresh_engine();
    let r = engine.begin_frame(WaitOutcome::Failed);
    assert_eq!(r, Err(RenderError::FenceWaitFailed));
    assert_eq!(engine.phase, FramePhase::Idle);
    assert_eq!(r.unwrap_err().message(), "Out of memory or device lost");
}

#[test]
fn present_failure_marks_swapchain_for_reconfiguration() {
    let mut engine = fresh_engine();
    let cp = caps(2, 4);
    engine.begin_frame(WaitOutcome::Signaled).unwrap();
    engine.configure(&cp);
    assert!(engine.complete_acquire(true));
    let _ = engine.record_commands();
    engine.finish_frame(false);
    assert!(engine.swapchain.dirty);
    assert_eq!(engine.phase, FramePhase::Idle);
}

#[test]
fn recording_order_is_fixed_and_total() {
    let extent = Extent2d { width: 640, height: 480 };
    let r = RectArea { x: 0, y: 0, width: 640, height: 480 };
    let commands = record_frame_commands(extent);
    assert_eq!(
        commands,
        vec![
            RenderCommand::BeginRecording,
            RenderCommand::SetViewport(r),
            RenderCommand::SetScissor(r),
            RenderCommand::BeginRenderPass(r),
            RenderCommand::BindPipeline,
            RenderCommand::Draw { vertex_count: 3, instance_count: 1 },
            RenderCommand::EndRenderPass,
            RenderCommand::FinishRecording,
        ]
    );
}

#[test]
fn recorded_commands_follow_configured_extent() {
    let mut engine = fresh_engine();
    let mut cp = caps(2, 4);
    cp.current_extent = Some(Extent2d { width: 800, height: 600 });
    engine.begin_frame(WaitOutcome::Signaled).unwrap();
    engine.configure(&cp);
    assert!(engine.complete_acquire(true));
    let commands = engine.record_commands();
    let r = RectArea { x: 0, y: 0, width: 800, height: 600 };
    assert_eq!(commands[1], RenderCommand::SetViewport(r));
    assert_eq!(commands[2], RenderCommand::SetScissor(r));
    engine.finish_frame(true);
}

#[test]
fn teardown_runs_in_reverse_dependency_order() {
    let steps = teardown_steps();
    assert_eq!(
        steps,
        vec![
            TeardownStep::Semaphore,
            TeardownStep::Fence,
            TeardownStep::Pipeline,
            TeardownStep::PipelineLayout,
            TeardownStep::RenderPass,
            TeardownStep::CommandPool,
            TeardownStep::UnconfigureSwapchain,
            TeardownStep::Surface,
        ]
    );
    // The dependency chain: pipeline before layout before render pass
    // before command pool.
    let pos = |s: TeardownStep| steps.iter().position(|t| *t == s).unwrap();
    assert!(pos(TeardownStep::Pipeline) < pos(TeardownStep::PipelineLayout));
    assert!(pos(TeardownStep::PipelineLayout) < pos(TeardownStep::RenderPass));
    assert!(pos(TeardownStep::RenderPass) < pos(TeardownStep::CommandPool));
}

#[test]
fn build_error_messages_identify_the_failing_object() {
    assert_eq!(EngineError::CreateFenceError.message(), "failed to create fence");
    assert_eq!(EngineError::CreateSemaphoreError.message(), "failed to create semaphore");
    assert_eq!(EngineError::BuildMainWindowError.message(), "failed to create main window");
    assert_eq!(EngineError::CreateGfxInstanceError.message(), "unsupported gfx backend");
    assert_eq!(EngineError::CreateGfxSurfaceError.message(), "failed to create gfx surface");
    assert_eq!(
        EngineError::GetQueueFamilyError.message(),
        "unsupported gfx queue family for graphic pipeline"
    );
    assert_eq!(EngineError::CreateGpuError.message(), "failed to create gfx gpu");
    assert_eq!(
        EngineError::GetQueueGroupError.message(),
        "failed to get queue group at selected queue family"
    );
    assert_eq!(
        EngineError::CreateCommandPoolError.message(),
        "failed to create gfx command pool"
    );
    assert_eq!(EngineError::CreateRenderPassError.message(), "failed to create gfx render pass");
    assert_eq!(
        EngineError::CreatePipelineLayoutError.message(),
        "failed to create gfx pipeline layout"
    );
    assert_eq!(EngineError::CreateShaderModule.message(), "failed to create shader module");
    assert_eq!(
        EngineError::CreateGraphicsPipelineError.message(),
        "failed to create graphics pipeline"
    );
}

#[test]
fn swapchain_state_marks_and_clears() {
    let mut sw = SwapchainState::new(fmt(7), Extent2d { width: 640, height: 480 });
    assert!(sw.dirty);
    let applied = sw.configure(&caps(2, 4));
    assert!(!sw.dirty);
    assert_eq!(applied.unwrap().extent, Extent2d { width: 640, height: 480 });
    sw.mark_stale();
    assert!(sw.dirty);
}

#[test]
fn bounded_waits_use_one_second() {
    assert_eq!(RENDER_TIMEOUT_NS, 1_000_000_000);
}
