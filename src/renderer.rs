//! Per-frame decisions of the renderer: whether a frame is drawn, when the
//! swapchain is recreated, how acquisition failures are handled, and the
//! order in which passes are submitted and joined.
//!
//! The caller performs each action (swapchain recreation, histogram dispatch,
//! framebuffer builds, image acquisition, command submission) and reports
//! what happened as the next event.
use vstd::prelude::*;

verus! {

/// Why a frame was not drawn. None of these is fatal.
#[derive(Clone, Copy, Debug, PartialEq, Eq, Structural)]
pub enum RendererDrawError {
    /// The output has a zero dimension; the frame is skipped until it is restored.
    WindowMinimized,
    /// The swapchain cannot be recreated at the current dimensions.
    UnsupportedDimensions,
    /// The swapchain no longer matches the surface; it is recreated next frame.
    SwapchainOutOfDate,
}

/// What the frame driver reports back.
#[derive(Clone, Copy, Debug, PartialEq, Eq, Structural)]
pub enum FrameEvent {
    /// A new frame is requested at the output's current dimensions.
    Start { width: u32, height: u32 },
    /// The swapchain, attachments and framebuffer caches were recreated.
    SwapchainRecreated,
    /// Swapchain recreation refused the dimensions.
    SwapchainUnsupportedDimensions,
    /// Swapchain recreation failed for any other reason.
    SwapchainFailed,
    /// An image was acquired.
    ImageAcquired { image: usize },
    /// Acquisition reported the swapchain out of date.
    AcquireOutOfDate,
    /// Acquisition failed for any other reason.
    AcquireFailed,
}

/// What the frame driver does next.
#[derive(Clone, Copy, Debug, PartialEq, Eq, Structural)]
pub enum FrameAction {
    /// Recreate the swapchain and the attachments at the current dimensions,
    /// and invalidate every framebuffer cache.
    RecreateSwapchain,
    /// Dispatch the histogram if it is idle, build missing framebuffers, and
    /// acquire the next image.
    Acquire,
    /// Record and submit the passes for the acquired image, then present.
    Submit { image: usize },
    /// Give up on this frame; nothing is submitted.
    Skip { reason: RendererDrawError },
    /// The device is in an unrecoverable state.
    Fatal,
}

/// State that carries from one frame to the next.
#[derive(Clone, Copy, Debug, PartialEq, Eq, Structural)]
pub struct FrameSequencer {
    /// The swapchain must be recreated before the next image is acquired.
    pub recreate_swapchain: bool,
    /// Whether the driver waits for the device after presenting.
    pub post_present_wait: bool,
}

impl FrameSequencer {
    /// The next state and action for `event`.
    pub open spec fn next(self, event: FrameEvent) -> (FrameSequencer, FrameAction) {
        match event {
            FrameEvent::Start { width, height } => if width == 0 || height == 0 {
                (self, FrameAction::Skip { reason: RendererDrawError::WindowMinimized })
            } else if self.recreate_swapchain {
                (self, FrameAction::RecreateSwapchain)
            } else {
                (self, FrameAction::Acquire)
            },
            FrameEvent::SwapchainRecreated => (
                FrameSequencer { recreate_swapchain: false, ..self },
                FrameAction::Acquire,
            ),
            FrameEvent::SwapchainUnsupportedDimensions => (
                self,
                FrameAction::Skip { reason: RendererDrawError::UnsupportedDimensions },
            ),
            FrameEvent::SwapchainFailed => (self, FrameAction::Fatal),
            FrameEvent::ImageAcquired { image } => (self, FrameAction::Submit { image }),
            FrameEvent::AcquireOutOfDate => (
                FrameSequencer { recreate_swapchain: true, ..self },
                FrameAction::Skip { reason: RendererDrawError::SwapchainOutOfDate },
            ),
            FrameEvent::AcquireFailed => (self, FrameAction::Fatal),
        }
    }

    /// A sequencer with a fresh swapchain.
    pub fn new(post_present_wait: bool) -> (r: FrameSequencer)
        ensures
            !r.recreate_swapchain,
            r.post_present_wait == post_present_wait,
    {
        FrameSequencer { recreate_swapchain: false, post_present_wait }
    }

    /// Advances on `event` and says what to do next.
    pub fn step(&mut self, event: FrameEvent) -> (action: FrameAction)
        ensures
            (*final(self), action) == old(self).next(event),
    {
        match event {
            FrameEvent::Start { width, height } => {
                if width == 0 || height == 0 {
                    FrameAction::Skip { reason: RendererDrawError::WindowMinimized }
                } else if self.recreate_swapchain {
                    FrameAction::RecreateSwapchain
                } else {
                    FrameAction::Acquire
                }
            },
            FrameEvent::SwapchainRecreated => {
                self.recreate_swapchain = false;
                FrameAction::Acquire
            },
            FrameEvent::SwapchainUnsupportedDimensions => {
                FrameAction::Skip { reason: RendererDrawError::UnsupportedDimensions }
            },
            FrameEvent::SwapchainFailed => FrameAction::Fatal,
            FrameEvent::ImageAcquired { image } => FrameAction::Submit { image },
            FrameEvent::AcquireOutOfDate => {
                self.recreate_swapchain = true;
                FrameAction::Skip { reason: RendererDrawError::SwapchainOutOfDate }
            },
            FrameEvent::AcquireFailed => FrameAction::Fatal,
        }
    }
}

/// A frame whose output has a zero dimension is skipped as minimized before
/// anything else happens: no recreation, no acquisition, no submission, and
/// the carried state is untouched.
pub proof fn lemma_minimized_frame_is_skipped(s: FrameSequencer, width: u32, height: u32)
    requires
        width == 0 || height == 0,
    ensures
        s.next(FrameEvent::Start { width, height }) == (
            s,
            FrameAction::Skip { reason: RendererDrawError::WindowMinimized },
        ),
{
}

/// An out-of-date swapchain is never fatal: the frame is skipped, and the
/// next frame with usable dimensions recreates the swapchain before it
/// acquires again.
pub proof fn lemma_out_of_date_recreates_next_frame(s: FrameSequencer, width: u32, height: u32)
    requires
        width > 0,
        height > 0,
    ensures
        ({
            let (after, skipped) = s.next(FrameEvent::AcquireOutOfDate);
            &&& skipped == FrameAction::Skip { reason: RendererDrawError::SwapchainOutOfDate }
            &&& after.next(FrameEvent::Start { width, height }).1 == FrameAction::RecreateSwapchain
            &&& after.next(FrameEvent::SwapchainRecreated).0.next(
                FrameEvent::Start { width, height },
            ).1 == FrameAction::Acquire
        }),
{
}

} // verus!
