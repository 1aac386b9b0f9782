//! The per-frame protocol: acquire, record one render pass, submit, present.
//!
//! The backend calls are made by the application; the renderer decides from their
//! results what happens next.
use vstd::prelude::*;

use crate::surface::Format;
use crate::swapchain::{SurfaceError, SwapChain, SwapChainState, SwapchainConfig};

verus! {

/// The largest channel value of a clear color: channels are in thousandths.
pub const CHANNEL_MAX: u16 = 1000;

/// A clear color with each channel in thousandths of full intensity.
#[derive(Clone, Copy, Debug, PartialEq, Eq, Structural)]
pub struct ClearColor {
    pub r: u16,
    pub g: u16,
    pub b: u16,
    pub a: u16,
}

impl ClearColor {
    pub open spec fn wf(self) -> bool {
        self.r <= CHANNEL_MAX && self.g <= CHANNEL_MAX && self.b <= CHANNEL_MAX && self.a
            <= CHANNEL_MAX
    }
}

/// A graphics pipeline as the frame protocol sees it: the format it renders to and the
/// fixed number of vertices it draws.
#[derive(Clone, Copy, Debug, PartialEq, Eq, Structural)]
pub struct Pipeline {
    pub target_format: Format,
    pub vertex_count: u32,
}

impl Pipeline {
    /// A pipeline for images of the configuration's format.
    pub fn for_config(config: &SwapchainConfig, vertex_count: u32) -> (r: Pipeline)
        ensures
            r.target_format == config.surface_format.format,
            r.vertex_count == vertex_count,
    {
        Pipeline { target_format: config.surface_format.format, vertex_count }
    }
}

/// The work of one frame: clear the acquired image to `clear_color`, bind `pipeline`, draw
/// vertices `0..pipeline.vertex_count` of instance `0`, submit to the graphics queue, and
/// present image `image_index` on the present queue.
#[derive(Clone, Copy, Debug, PartialEq, Eq, Structural)]
pub struct FramePlan {
    pub image_index: u32,
    pub clear_color: ClearColor,
    pub pipeline: Pipeline,
    pub instance_count: u32,
}

/// Why a frame was not rendered.
#[derive(Clone, Copy, Debug, PartialEq, Eq, Structural)]
pub enum FrameError {
    /// The swapchain has never been configured.
    NotConfigured,
    /// The swapchain was reported lost or out of date and awaits reconfiguration.
    SwapchainInvalid,
    /// The backend reported an error while acquiring or presenting.
    Surface(SurfaceError),
}

/// What the owner of the window does about a frame error.
#[derive(Clone, Copy, Debug, PartialEq, Eq, Structural)]
pub enum RecoveryAction {
    /// Recreate the surface, then configure the swapchain for the current window size.
    RecreateSurface,
    /// Configure the swapchain for the current window size.
    Reconfigure,
    /// Drop this frame and try again with the next one.
    SkipFrame,
    /// Stop rendering.
    Exit,
}

pub open spec fn recovery_for(error: FrameError) -> RecoveryAction {
    match error {
        FrameError::Surface(SurfaceError::Lost) => RecoveryAction::RecreateSurface,
        FrameError::Surface(SurfaceError::Timeout) => RecoveryAction::SkipFrame,
        FrameError::Surface(SurfaceError::OutOfMemory) => RecoveryAction::Exit,
        _ => RecoveryAction::Reconfigure,
    }
}

/// The recovery policy: a lost surface is recreated, a stale or missing swapchain is
/// reconfigured, a timeout drops the frame, and running out of memory ends rendering.
pub fn recovery_action(error: FrameError) -> (r: RecoveryAction)
    ensures
        r == recovery_for(error),
{
    match error {
        FrameError::Surface(SurfaceError::Lost) => RecoveryAction::RecreateSurface,
        FrameError::Surface(SurfaceError::Timeout) => RecoveryAction::SkipFrame,
        FrameError::Surface(SurfaceError::OutOfMemory) => RecoveryAction::Exit,
        _ => RecoveryAction::Reconfigure,
    }
}

/// The error that forbids acquiring from a swapchain in state `s`, if any.
pub open spec fn state_error(s: SwapChainState) -> Option<FrameError> {
    match s {
        SwapChainState::Unconfigured => Some(FrameError::NotConfigured),
        SwapChainState::Invalid => Some(FrameError::SwapchainInvalid),
        SwapChainState::Ready => None,
    }
}

/// Draws one pipeline over a cleared image each frame.
pub struct Renderer {
    pub clear_color: ClearColor,
    pub pipeline: Pipeline,
}

impl Renderer {
    pub fn new(clear_color: ClearColor, pipeline: Pipeline) -> (r: Renderer)
        ensures
            r.clear_color == clear_color,
            r.pipeline == pipeline,
    {
        Renderer { clear_color, pipeline }
    }

    /// The plan of a frame on acquired image `image_index`.
    pub open spec fn plan_for(&self, image_index: u32) -> FramePlan {
        FramePlan {
            image_index,
            clear_color: self.clear_color,
            pipeline: self.pipeline,
            instance_count: 1,
        }
    }

    /// Whether an image may be acquired: only from a ready swapchain.
    pub fn begin_frame(&self, swapchain: &SwapChain) -> (r: Result<(), FrameError>)
        ensures
            state_error(swapchain@.state()) matches Some(e) ==> r == Err::<(), FrameError>(e),
            state_error(swapchain@.state()) is None ==> r is Ok,
    {
        match swapchain.state() {
            SwapChainState::Unconfigured => Err(FrameError::NotConfigured),
            SwapChainState::Invalid => Err(FrameError::SwapchainInvalid),
            SwapChainState::Ready => Ok(()),
        }
    }

    /// Decides the frame from what acquiring returned. A failed acquire yields its error
    /// and no plan, so nothing is submitted or presented; a lost or out-of-date swapchain
    /// becomes invalid. A swapchain that is not ready yields its state's error.
    pub fn render(&self, swapchain: &mut SwapChain, acquired: Result<u32, SurfaceError>) -> (r:
        Result<FramePlan, FrameError>)
        ensures
            state_error(old(swapchain)@.state()) matches Some(e) ==> r == Err::<FramePlan, _>(e)
                && final(swapchain)@ == old(swapchain)@,
            state_error(old(swapchain)@.state()) is None ==> match acquired {
                Ok(i) => r == Ok::<_, FrameError>(self.plan_for(i)) && final(swapchain)@
                    == old(swapchain)@,
                Err(e) => r == Err::<FramePlan, _>(FrameError::Surface(e))
                    && final(swapchain)@.config == old(swapchain)@.config
                    && final(swapchain)@.valid == !e.invalidates(),
            },
    {
        if let Err(e) = self.begin_frame(swapchain) {
            return Err(e);
        }
        match acquired {
            Ok(image_index) => Ok(
                FramePlan {
                    image_index,
                    clear_color: self.clear_color,
                    pipeline: self.pipeline,
                    instance_count: 1,
                },
            ),
            Err(e) => {
                swapchain.record_error(e);
                Err(FrameError::Surface(e))
            },
        }
    }

    /// Takes what presenting returned: an error is passed on, and a lost or out-of-date
    /// swapchain becomes invalid.
    pub fn finish_frame(&self, swapchain: &mut SwapChain, presented: Result<(), SurfaceError>) -> (r:
        Result<(), FrameError>)
        ensures
            presented is Ok ==> r is Ok && final(swapchain)@ == old(swapchain)@,
            presented matches Err(e) ==> r == Err::<(), _>(FrameError::Surface(e))
                && final(swapchain)@.config == old(swapchain)@.config
                && final(swapchain)@.valid == (old(swapchain)@.valid && !e.invalidates()),
    {
        match presented {
            Ok(()) => Ok(()),
            Err(e) => {
                swapchain.record_error(e);
                Err(FrameError::Surface(e))
            },
        }
    }
}

} // verus!
