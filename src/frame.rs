use vstd::prelude::*;

use crate::swapchain::{Extent, RebuildOutcome, StarrySwapchain, SwapchainError};

verus! {

/// Where the scheduler stands within one frame.
#[derive(Clone, Copy, Debug, PartialEq, Eq, Structural)]
pub enum FramePhase {
    /// Between frames.
    Ready,
    /// The caller is rebuilding the swapchain and framebuffers at `requested`.
    Rebuilding { requested: Extent },
    /// The caller is acquiring the next image.
    Acquiring,
    /// The caller is recording commands against the framebuffer of `image`.
    Recording { image: u32 },
    /// The caller has submitted the commands and is presenting `image`.
    Presenting { image: u32 },
}

/// What the caller does next.
#[derive(Clone, Copy, Debug, PartialEq, Eq, Structural)]
pub enum FrameStep {
    /// Nothing is rendered this tick.
    Skip,
    /// Rebuild the swapchain and its framebuffers at `extent`.
    Rebuild { extent: Extent },
    /// Acquire the next swapchain image.
    Acquire,
    /// Record the draw commands against the framebuffer of `image`.
    Record { image: u32 },
}

/// What acquiring the next image reported.
#[derive(Clone, Copy, Debug, PartialEq, Eq, Structural)]
pub enum AcquireOutcome {
    /// Image `image` is ours; `suboptimal` when the swapchain no longer
    /// matches the surface exactly.
    Acquired { image: u32, suboptimal: bool },
    /// The swapchain no longer matches the surface.
    OutOfDate,
    /// Any other failure.
    Failed,
}

/// What submitting and presenting a frame reported.
#[derive(Clone, Copy, Debug, PartialEq, Eq, Structural)]
pub enum PresentOutcome {
    /// The frame is on its way; its completion handle is the new previous frame.
    Presented,
    /// The swapchain no longer matches the surface.
    OutOfDate,
    /// Any other failure.
    Failed,
}

/// What becomes of the previous-frame handle after a present.
#[derive(Clone, Copy, Debug, PartialEq, Eq, Structural)]
pub enum PresentStep {
    /// Keep the completion handle of the frame just submitted.
    KeepFrame,
    /// The frame was dropped: start again from a handle that is already complete.
    ResetFrame,
}

/// Why a frame could not be rendered.
#[derive(Clone, Copy, Debug, PartialEq, Eq, Structural)]
pub enum FrameError {
    /// Rebuilding the swapchain failed.
    Swapchain(SwapchainError),
    /// Acquiring the next image failed for a reason other than staleness.
    AcquireFailed,
    /// The acquired image has no framebuffer.
    ImageOutOfRange { image: u32, image_count: u32 },
    /// Submitting or presenting failed for a reason other than staleness.
    SubmitFailed,
}

impl FrameError {
    /// Whether rendering cannot go on. Only a refused extent can be retried.
    pub fn is_fatal(&self) -> (r: bool)
        ensures
            r == !(*self matches FrameError::Swapchain(SwapchainError::ExtentNotSupported { .. })),
    {
        match self {
            FrameError::Swapchain(SwapchainError::ExtentNotSupported { .. }) => false,
            _ => true,
        }
    }
}

/// Drives the acquire, record, submit and present cycle of one swapchain.
///
/// `extent` and `image_count` describe the current swapchain and its
/// framebuffers, which are always rebuilt together; `viewport` follows the
/// extent of every rebuild. `stale` records that the swapchain must be rebuilt
/// before the next image is acquired.
pub struct FrameScheduler {
    pub phase: FramePhase,
    pub stale: bool,
    pub extent: Extent,
    pub viewport: Extent,
    pub image_count: u32,
}

impl FrameScheduler {
    pub open spec fn wf(&self) -> bool {
        &&& self.image_count > 0
        &&& self.viewport == self.extent
        &&& self.phase matches FramePhase::Recording { image } ==> image < self.image_count
        &&& self.phase matches FramePhase::Presenting { image } ==> image < self.image_count
    }

    /// A scheduler for a freshly created swapchain of `image_count` images.
    pub fn new(extent: Extent, image_count: u32) -> (r: FrameScheduler)
        requires
            image_count > 0,
        ensures
            r.wf(),
            r.phase == FramePhase::Ready,
            !r.stale,
            r.extent == extent,
            r.image_count == image_count,
    {
        FrameScheduler { phase: FramePhase::Ready, stale: false, extent, viewport: extent, image_count }
    }

    /// The surface changed size: rebuild before the next acquire.
    pub fn mark_stale(&mut self)
        ensures
            *final(self) == (FrameScheduler { stale: true, ..*old(self) }),
    {
        self.stale = true;
    }

    /// Starts a frame for a window of size `window`.
    ///
    /// A window with no area renders nothing. A stale swapchain is rebuilt at
    /// the window's size before any image is acquired.
    pub fn begin_frame(&mut self, window: Extent) -> (r: FrameStep)
        requires
            old(self).wf(),
            old(self).phase == FramePhase::Ready,
        ensures
            final(self).wf(),
            !(window.width > 0 && window.height > 0) ==> r == FrameStep::Skip && *final(self)
                == *old(self),
            (window.width > 0 && window.height > 0) && old(self).stale ==> r == (FrameStep::Rebuild {
                extent: window,
            }) && *final(self) == (FrameScheduler {
                phase: FramePhase::Rebuilding { requested: window },
                ..*old(self)
            }),
            (window.width > 0 && window.height > 0) && !old(self).stale ==> r == FrameStep::Acquire
                && *final(self) == (FrameScheduler { phase: FramePhase::Acquiring, ..*old(self) }),
    {
        if !window.is_drawable() {
            FrameStep::Skip
        } else if self.stale {
            self.phase = FramePhase::Rebuilding { requested: window };
            FrameStep::Rebuild { extent: window }
        } else {
            self.phase = FramePhase::Acquiring;
            FrameStep::Acquire
        }
    }

    /// Takes in what rebuilding the swapchain reported.
    ///
    /// On success the swapchain, framebuffers and viewport all take the new
    /// extent at once and the frame goes on to acquire. A refused extent drops
    /// the frame and keeps the swapchain stale; the error carries the surface's
    /// supported range.
    pub fn finish_rebuild(&mut self, outcome: RebuildOutcome) -> (r: Result<FrameStep, FrameError>)
        requires
            old(self).wf(),
            old(self).phase is Rebuilding,
        ensures
            final(self).wf(),
            ({
                let requested = old(self).phase->requested;
                match StarrySwapchain::spec_rebuild_result(requested, outcome) {
                    Ok((extent, image_count)) => r == Ok::<FrameStep, FrameError>(FrameStep::Acquire)
                        && *final(self) == (FrameScheduler {
                        phase: FramePhase::Acquiring,
                        stale: false,
                        extent,
                        viewport: extent,
                        image_count,
                    }),
                    Err(e) => r == Err::<FrameStep, FrameError>(FrameError::Swapchain(e))
                        && *final(self) == (FrameScheduler {
                        phase: FramePhase::Ready,
                        ..*old(self)
                    }),
                }
            }),
    {
        let requested = match self.phase {
            FramePhase::Rebuilding { requested } => requested,
            _ => self.extent,
        };
        match StarrySwapchain::rebuild_result(requested, outcome) {
            Ok((extent, image_count)) => {
                self.phase = FramePhase::Acquiring;
                self.stale = false;
                self.extent = extent;
                self.viewport = extent;
                self.image_count = image_count;
                Ok(FrameStep::Acquire)
            },
            Err(e) => {
                self.phase = FramePhase::Ready;
                Err(FrameError::Swapchain(e))
            },
        }
    }

    /// Takes in what acquiring the next image reported.
    ///
    /// A suboptimal image is still drawn, and the swapchain is rebuilt on the
    /// next frame. An out-of-date swapchain drops the frame.
    pub fn finish_acquire(&mut self, outcome: AcquireOutcome) -> (r: Result<FrameStep, FrameError>)
        requires
            old(self).wf(),
            old(self).phase == FramePhase::Acquiring,
        ensures
            final(self).wf(),
            match outcome {
                AcquireOutcome::Acquired { image, suboptimal } => if image < old(self).image_count {
                    r == Ok::<FrameStep, FrameError>(FrameStep::Record { image }) && *final(self) == (
                    FrameScheduler {
                        phase: FramePhase::Recording { image },
                        stale: old(self).stale || suboptimal,
                        ..*old(self)
                    })
                } else {
                    r == Err::<FrameStep, FrameError>(
                        FrameError::ImageOutOfRange { image, image_count: old(self).image_count },
                    ) && *final(self) == (FrameScheduler { phase: FramePhase::Ready, ..*old(self) })
                },
                AcquireOutcome::OutOfDate => r == Ok::<FrameStep, FrameError>(FrameStep::Skip)
                    && *final(self) == (FrameScheduler {
                    phase: FramePhase::Ready,
                    stale: true,
                    ..*old(self)
                }),
                AcquireOutcome::Failed => r == Err::<FrameStep, FrameError>(FrameError::AcquireFailed)
                    && *final(self) == (FrameScheduler { phase: FramePhase::Ready, ..*old(self) }),
            },
    {
        match outcome {
            AcquireOutcome::Acquired { image, suboptimal } => {
                if image < self.image_count {
                    self.phase = FramePhase::Recording { image };
                    self.stale = self.stale || suboptimal;
                    Ok(FrameStep::Record { image })
                } else {
                    self.phase = FramePhase::Ready;
                    Err(FrameError::ImageOutOfRange { image, image_count: self.image_count })
                }
            },
            AcquireOutcome::OutOfDate => {
                self.phase = FramePhase::Ready;
                self.stale = true;
                Ok(FrameStep::Skip)
            },
            AcquireOutcome::Failed => {
                self.phase = FramePhase::Ready;
                Err(FrameError::AcquireFailed)
            },
        }
    }

    /// The commands are recorded: submit them and present the image they draw.
    pub fn submit(&mut self) -> (r: u32)
        requires
            old(self).wf(),
            old(self).phase is Recording,
        ensures
            final(self).wf(),
            r == old(self).phase->Recording_image,
            r < old(self).image_count,
            *final(self) == (FrameScheduler {
                phase: FramePhase::Presenting { image: r },
                ..*old(self)
            }),
    {
        let image = match self.phase {
            FramePhase::Recording { image } => image,
            _ => 0,
        };
        self.phase = FramePhase::Presenting { image };
        image
    }

    /// Takes in what submitting and presenting reported.
    ///
    /// An out-of-date swapchain drops the frame without failing and is rebuilt
    /// on the next frame.
    pub fn finish_present(&mut self, outcome: PresentOutcome) -> (r: Result<PresentStep, FrameError>)
        requires
            old(self).wf(),
            old(self).phase is Presenting,
        ensures
            final(self).wf(),
            match outcome {
                PresentOutcome::Presented => r == Ok::<PresentStep, FrameError>(PresentStep::KeepFrame)
                    && *final(self) == (FrameScheduler { phase: FramePhase::Ready, ..*old(self) }),
                PresentOutcome::OutOfDate => r == Ok::<PresentStep, FrameError>(
                    PresentStep::ResetFrame,
                ) && *final(self) == (FrameScheduler {
                    phase: FramePhase::Ready,
                    stale: true,
                    ..*old(self)
                }),
                PresentOutcome::Failed => r == Err::<PresentStep, FrameError>(FrameError::SubmitFailed)
                    && *final(self) == (FrameScheduler { phase: FramePhase::Ready, ..*old(self) }),
            },
    {
        self.phase = FramePhase::Ready;
        match outcome {
            PresentOutcome::Presented => Ok(PresentStep::KeepFrame),
            PresentOutcome::OutOfDate => {
                self.stale = true;
                Ok(PresentStep::ResetFrame)
            },
            PresentOutcome::Failed => Err(FrameError::SubmitFailed),
        }
    }
}

} // verus!
