//! Frame presentation engine: swapchain negotiation, frame synchronization,
//! command recording order, and resource teardown ordering, modeled over
//! plain values and verified. The platform layer (window system, GPU device)
//! drives these decisions from outside.

mod commands;
mod device;
mod engine;
mod error;
mod extent;
mod number;
mod point;
mod surface;
mod swapchain;
mod teardown;
mod vector;

pub use extent::Extent2d;
pub use surface::{FormatId, FormatInfo, SurfaceCaps, SwapchainConfig};
pub use surface::{chosen_format, clamp_u32, first_srgb, max_u32, min_u32,
    plan_swapchain_config, planned_config, planned_extent, planned_image_count,
    select_color_format};
pub use swapchain::{SwapchainState, configure_spec, resize_spec, stale_spec};
pub use commands::{RectArea, RenderCommand, full_rect, record_frame_commands, recorded_commands};
pub use error::{EngineError, RenderError, engine_error_message, render_error_message};
pub use teardown::{TeardownStep, lemma_teardown_dependency_order, teardown_order, teardown_steps};
pub use engine::{EngineState, FrameEvents, FramePhase, WaitOutcome, RENDER_TIMEOUT_NS};
pub use engine::{begin_spec, frame_ok, frame_spec, lemma_dirty_false_after_success,
    lemma_frame_spec_matches_protocol, lemma_single_frame_in_flight, lemma_success_clears_dirty,
    present_spec, run_frames};
pub use device::{QueueFamilyInfo, family_suitable, select_queue_family};
pub use number::{ApproxEq, Cast};
pub use point::{Point1, Point2, Point3};
pub use vector::{Vector1, Vector2, Vector3, Vector4};
