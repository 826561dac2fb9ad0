//! The per-frame presentation cycle.
//!
//! A single CPU thread drives the loop; GPU work runs asynchronously behind
//! one completion fence and one presentation semaphore. The platform layer
//! performs the blocking waits and the GPU calls and reports each outcome
//! here; this state machine decides what happens next and in which order,
//! and its phase field makes the per-frame protocol total: wait on the
//! fence, reconfigure the swapchain if dirty, acquire an image, record the
//! fixed command sequence, submit and present.

use vstd::prelude::*;
use crate::commands::{RenderCommand, record_frame_commands, recorded_commands};
use crate::error::RenderError;
use crate::extent::Extent2d;
use crate::surface::{FormatId, SurfaceCaps, SwapchainConfig, planned_config};
use crate::swapchain::{SwapchainState, configure_spec, resize_spec, stale_spec};

verus! {

/// Bounded wait used for the fence wait and for image acquisition, in
/// nanoseconds. A healthy device never misses this deadline for one frame
/// of trivial work, so exceeding it is treated as fatal, not as
/// backpressure.
pub const RENDER_TIMEOUT_NS: u64 = 1_000_000_000;

/// What the platform layer observed while waiting on the completion fence.
#[derive(Clone, Copy, Debug, PartialEq, Eq, Structural)]
pub enum WaitOutcome {
    /// The fence was signaled within the timeout: the previous frame's GPU
    /// work is complete.
    Signaled,
    /// The timeout elapsed first.
    TimedOut,
    /// The wait itself failed: out of memory or device lost.
    Failed,
}

/// Where in the per-frame protocol the engine stands. Each phase names the
/// step that is allowed next.
#[derive(Clone, Copy, Debug, PartialEq, Eq, Structural)]
pub enum FramePhase {
    /// Between frames: only `begin_frame` may run.
    Idle,
    /// Fence consumed and reset; the swapchain must be brought up to date
    /// next.
    Negotiate,
    /// Swapchain up to date; an image may be acquired.
    Acquire,
    /// An image is held; the command sequence may be recorded.
    Record,
    /// Commands recorded; submission and presentation finish the frame.
    Submit,
}

/// The engine's decision state: the surface negotiator's swapchain state
/// plus the position in the per-frame protocol.
#[derive(Clone, Copy, Debug, PartialEq, Eq, Structural)]
pub struct EngineState {
    pub swapchain: SwapchainState,
    pub phase: FramePhase,
}

/// What `begin_frame` does: recording starts (the fence is reset and the
/// frame proceeds) exactly when the engine is idle and the wait observed
/// the fence signaled; on any other outcome nothing changes and no
/// submission can follow.
pub open spec fn begin_spec(s: EngineState, wait: WaitOutcome) -> EngineState {
    if s.phase == FramePhase::Idle && wait == WaitOutcome::Signaled {
        EngineState { swapchain: s.swapchain, phase: FramePhase::Negotiate }
    } else {
        s
    }
}

/// What finishing a frame does to the negotiator: any present failure marks
/// the swapchain for reconfiguration instead of propagating as an error.
pub open spec fn present_spec(s: SwapchainState, present_ok: bool) -> SwapchainState {
    SwapchainState {
        dirty: s.dirty || !present_ok,
        extent: s.extent,
        color_format: s.color_format,
    }
}

/// The outside outcomes one whole `render` call consumes: the fence wait,
/// the surface capabilities read while reconfiguring, whether an image was
/// acquired, and whether presentation succeeded.
#[derive(Clone, Copy, Debug, PartialEq, Eq, Structural)]
pub struct FrameEvents {
    pub wait: WaitOutcome,
    pub caps: SurfaceCaps,
    pub acquired: bool,
    pub present_ok: bool,
}

/// A frame on which nothing went wrong: the fence was signaled in time, an
/// image was acquired, and presentation succeeded.
pub open spec fn frame_ok(ev: FrameEvents) -> bool {
    ev.wait == WaitOutcome::Signaled && ev.acquired && ev.present_ok
}

/// The effect of one whole `render` call, as the composition of the
/// per-phase steps below: a failed wait is fatal and changes nothing; a
/// failed acquire skips the frame and marks the swapchain stale; otherwise
/// the frame is recorded, submitted and presented, and a failed present
/// marks the swapchain stale for the next frame.
pub open spec fn frame_spec(s: EngineState, ev: FrameEvents) -> EngineState {
    if s.phase == FramePhase::Idle && ev.wait == WaitOutcome::Signaled {
        let configured = configure_spec(s.swapchain, ev.caps);
        if ev.acquired {
            EngineState { swapchain: present_spec(configured, ev.present_ok), phase: FramePhase::Idle }
        } else {
            EngineState { swapchain: stale_spec(configured), phase: FramePhase::Idle }
        }
    } else {
        s
    }
}

/// The engine state after a sequence of `render` calls.
pub open spec fn run_frames(s: EngineState, evs: Seq<FrameEvents>) -> EngineState
    decreases evs.len(),
{
    if evs.len() == 0 {
        s
    } else {
        run_frames(frame_spec(s, evs[0]), evs.skip(1))
    }
}

impl EngineState {
    /// A freshly built engine: idle, with the swapchain dirty until its
    /// first configuration.
    pub fn new(color_format: FormatId, initial_extent: Extent2d) -> (r: EngineState)
        ensures
            r.phase == FramePhase::Idle,
            r.swapchain.dirty == true,
            r.swapchain.extent == initial_extent,
            r.swapchain.color_format == color_format,
    {
        EngineState {
            swapchain: SwapchainState::new(color_format, initial_extent),
            phase: FramePhase::Idle,
        }
    }

    /// Consumes the fence wait outcome. Only a signaled fence lets the
    /// frame proceed (the platform layer resets the fence and the command
    /// pool on `Ok`); a timeout or a failed wait is fatal, the state does
    /// not change, and no submission occurs in this call.
    pub fn begin_frame(&mut self, wait: WaitOutcome) -> (r: Result<(), RenderError>)
        requires
            old(self).phase == FramePhase::Idle,
        ensures
            *final(self) == begin_spec(*old(self), wait),
            (r is Ok) == (wait == WaitOutcome::Signaled),
            wait == WaitOutcome::TimedOut ==> r == Err::<(), RenderError>(RenderError::FenceTimeout),
            wait == WaitOutcome::Failed ==> r == Err::<(), RenderError>(RenderError::FenceWaitFailed),
    {
        match wait {
            WaitOutcome::Signaled => {
                self.phase = FramePhase::Negotiate;
                Ok(())
            },
            WaitOutcome::TimedOut => Err(RenderError::FenceTimeout),
            WaitOutcome::Failed => Err(RenderError::FenceWaitFailed),
        }
    }

    /// Brings the swapchain up to date against the given capabilities:
    /// returns the configuration for the platform layer to apply while the
    /// swapchain was dirty, `None` otherwise. Either way the frame moves on
    /// to image acquisition.
    pub fn configure(&mut self, caps: &SurfaceCaps) -> (r: Option<SwapchainConfig>)
        requires
            old(self).phase == FramePhase::Negotiate,
        ensures
            final(self).swapchain == configure_spec(old(self).swapchain, *caps),
            final(self).phase == FramePhase::Acquire,
            r == (if old(self).swapchain.dirty {
                Some(planned_config(*caps, old(self).swapchain.color_format, old(self).swapchain.extent))
            } else {
                None::<SwapchainConfig>
            }),
    {
        let r = self.swapchain.configure(caps);
        self.phase = FramePhase::Acquire;
        r
    }

    /// Consumes the image acquisition outcome. A staleness signal skips the
    /// frame: the swapchain is marked dirty, the engine returns to idle,
    /// and no command buffer is recorded for this call. Returns whether
    /// recording may proceed.
    pub fn complete_acquire(&mut self, acquired: bool) -> (r: bool)
        requires
            old(self).phase == FramePhase::Acquire,
        ensures
            r == acquired,
            acquired ==> *final(self) == (EngineState {
                swapchain: old(self).swapchain,
                phase: FramePhase::Record,
            }),
            !acquired ==> *final(self) == (EngineState {
                swapchain: stale_spec(old(self).swapchain),
                phase: FramePhase::Idle,
            }),
    {
        if acquired {
            self.phase = FramePhase::Record;
        } else {
            self.swapchain.mark_stale();
            self.phase = FramePhase::Idle;
        }
        acquired
    }

    /// Records the frame's command sequence: exactly the fixed order, at
    /// the configured surface extent.
    pub fn record_commands(&mut self) -> (r: Vec<RenderCommand>)
        requires
            old(self).phase == FramePhase::Record,
        ensures
            r@ == recorded_commands(old(self).swapchain.extent),
            *final(self) == (EngineState {
                swapchain: old(self).swapchain,
                phase: FramePhase::Submit,
            }),
    {
        let commands = record_frame_commands(self.swapchain.extent);
        self.phase = FramePhase::Submit;
        commands
    }

    /// Consumes the presentation outcome after submission: a present
    /// failure marks the swapchain for reconfiguration rather than
    /// propagating, and the engine returns to idle.
    pub fn finish_frame(&mut self, present_ok: bool)
        requires
            old(self).phase == FramePhase::Submit,
        ensures
            *final(self) == (EngineState {
                swapchain: present_spec(old(self).swapchain, present_ok),
                phase: FramePhase::Idle,
            }),
    {
        if !present_ok {
            self.swapchain.mark_stale();
        }
        self.phase = FramePhase::Idle;
    }

    /// Records a reported window size change: always marks the swapchain
    /// dirty and stores the new target extent, regardless of prior state.
    pub fn window_size_changed(&mut self, new_size: [u32; 2])
        ensures
            final(self).swapchain == resize_spec(old(self).swapchain, new_size[0], new_size[1]),
            final(self).swapchain.dirty == true,
            final(self).phase == old(self).phase,
    {
        self.swapchain.window_size_changed(new_size);
    }
}

/// The whole-frame transition is exactly the composition of the per-phase
/// steps the methods above promise, taken in protocol order: begin, then
/// configure, then acquire, then — when an image was acquired — record,
/// submit and present, else skip.
pub proof fn lemma_frame_spec_matches_protocol(s: EngineState, ev: FrameEvents)
    requires
        s.phase == FramePhase::Idle,
    ensures
        ev.wait != WaitOutcome::Signaled ==> frame_spec(s, ev) == s,
        ev.wait == WaitOutcome::Signaled ==> frame_spec(s, ev) == ({
            let negotiated = EngineState {
                swapchain: configure_spec(begin_spec(s, ev.wait).swapchain, ev.caps),
                phase: FramePhase::Acquire,
            };
            if ev.acquired {
                EngineState {
                    swapchain: present_spec(negotiated.swapchain, ev.present_ok),
                    phase: FramePhase::Idle,
                }
            } else {
                EngineState {
                    swapchain: stale_spec(negotiated.swapchain),
                    phase: FramePhase::Idle,
                }
            }
        }),
{
}

/// At most one frame is in flight. The engine owns a single completion
/// fence, and a frame enters its recording sequence only from the idle
/// state — in which the previous frame's submission was already finished —
/// and only when the fence wait observed that previous submission's fence
/// signaled; on any other outcome the state is unchanged.
pub proof fn lemma_single_frame_in_flight(s: EngineState, wait: WaitOutcome)
    ensures
        begin_spec(s, wait) != s ==> (
            wait == WaitOutcome::Signaled
            && s.phase == FramePhase::Idle
            && begin_spec(s, wait).phase == FramePhase::Negotiate
        ),
        s.phase != FramePhase::Idle ==> begin_spec(s, wait) == s,
{
}

/// One fully successful frame leaves the dirty flag false: if the
/// swapchain was dirty it was reconfigured, and neither acquire nor
/// present signaled staleness.
pub proof fn lemma_success_clears_dirty(s: EngineState, ev: FrameEvents)
    requires
        s.phase == FramePhase::Idle,
        frame_ok(ev),
    ensures
        frame_spec(s, ev).swapchain.dirty == false,
        frame_spec(s, ev).phase == FramePhase::Idle,
        frame_spec(s, ev).swapchain.color_format == s.swapchain.color_format,
{
}

/// Across any sequence of `render` calls with no resize in between, the
/// dirty flag is false after the first successful frame and remains false
/// as long as every frame succeeds (no staleness signal arrives).
pub proof fn lemma_dirty_false_after_success(s: EngineState, evs: Seq<FrameEvents>)
    requires
        s.phase == FramePhase::Idle,
        evs.len() >= 1,
        forall|i: int| 0 <= i < evs.len() ==> frame_ok(#[trigger] evs[i]),
    ensures
        run_frames(s, evs).swapchain.dirty == false,
        run_frames(s, evs).phase == FramePhase::Idle,
    decreases evs.len(),
{
    let s1 = frame_spec(s, evs[0]);
    lemma_success_clears_dirty(s, evs[0]);
    if evs.len() == 1 {
        assert(run_frames(s1, evs.skip(1)) == s1);
    } else {
        assert(forall|i: int| 0 <= i < evs.skip(1).len() ==> frame_ok(#[trigger] evs.skip(1)[i]))
            by {
            assert(forall|i: int| 0 <= i < evs.skip(1).len() ==> evs.skip(1)[i] == evs[i + 1]);
        }
        lemma_dirty_false_after_success(s1, evs.skip(1));
    }
}

} // verus!
