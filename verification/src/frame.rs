//! The bookkeeping of the render loop: which of the frames in flight is
//! drawn next, and whether the swapchain no longer fits the window.

use vstd::prelude::*;

use crate::swapchain::Extent2D;

verus! {

/// How many frames may be in flight at once.
pub const MAX_FRAMES_IN_FLIGHT: usize = 2;

/// The frame slot that follows slot `frame`.
pub open spec fn spec_next_frame(frame: int) -> int {
    (frame + 1) % (MAX_FRAMES_IN_FLIGHT as int)
}

/// What asking the swapchain for the next image gave.
#[derive(Debug, Clone, Copy, PartialEq, Eq, Structural)]
pub enum AcquireOutcome {
    /// An image to draw into; `suboptimal` where it no longer matches the
    /// surface exactly.
    Acquired { image_index: u32, suboptimal: bool },
    /// The swapchain no longer fits the surface.
    OutOfDate,
    /// Any other failure, with its Vulkan result code.
    Failed(i32),
}

/// What the render loop does after asking for an image.
#[derive(Debug, Clone, Copy, PartialEq, Eq, Structural)]
pub enum AcquireStep {
    /// Draw into the image with this index.
    Draw(u32),
    /// Draw nothing this frame; this is no error.
    Skip,
    /// Give up this frame with this Vulkan result code as the error.
    Fail(i32),
}

/// What presenting the drawn image gave.
#[derive(Debug, Clone, Copy, PartialEq, Eq, Structural)]
pub enum PresentOutcome {
    /// Shown; `suboptimal` where the swapchain no longer matches the surface
    /// exactly.
    Presented { suboptimal: bool },
    /// The swapchain no longer fits the surface.
    OutOfDate,
    /// Any other failure, with its Vulkan result code.
    Failed(i32),
}

/// The render loop's state.
pub struct FrameState {
    frame: usize,
    resized: bool,
    extent: Extent2D,
}

/// What a `FrameState` stands for.
pub struct FrameStateView {
    /// The slot of the frame drawn next.
    pub frame: int,
    /// Whether the swapchain was found not to fit the window any more.
    pub resized: bool,
    /// The size of the swapchain's images.
    pub extent: Extent2D,
}

impl View for FrameState {
    type V = FrameStateView;

    closed spec fn view(&self) -> FrameStateView {
        FrameStateView { frame: self.frame as int, resized: self.resized, extent: self.extent }
    }
}

impl FrameState {
    #[verifier::type_invariant]
    spec fn slot_in_range(self) -> bool {
        self.frame < MAX_FRAMES_IN_FLIGHT
    }

    /// The state of a render loop whose swapchain was just made with images
    /// of size `extent`: slot 0 comes first, and nothing needs resizing.
    pub fn new(extent: Extent2D) -> (state: Self)
        ensures
            state@.frame == 0,
            !state@.resized,
            state@.extent == extent,
    {
        FrameState { frame: 0, resized: false, extent }
    }

    /// The slot of the frame drawn next.
    pub fn frame(&self) -> (frame: usize)
        ensures
            frame == self@.frame,
            frame < MAX_FRAMES_IN_FLIGHT,
    {
        proof {
            use_type_invariant(self);
        }
        self.frame
    }

    /// Whether the swapchain was found not to fit the window any more.
    pub fn resized(&self) -> (resized: bool)
        ensures
            resized == self@.resized,
    {
        self.resized
    }

    /// The size of the swapchain's images.
    pub fn extent(&self) -> (extent: Extent2D)
        ensures
            extent == self@.extent,
    {
        self.extent
    }

    /// Notes that the window changed size.
    pub fn request_resize(&mut self)
        ensures
            final(self)@.resized,
            final(self)@.frame == old(self)@.frame,
            final(self)@.extent == old(self)@.extent,
    {
        proof {
            use_type_invariant(&*self);
        }
        self.resized = true;
    }

    /// Whether there is anything to draw into: a swapchain of no area is
    /// never drawn.
    pub fn has_drawable_extent(&self) -> (drawable: bool)
        ensures
            drawable == (self@.extent.width != 0 && self@.extent.height != 0),
    {
        self.extent.width != 0 && self.extent.height != 0
    }

    /// Decides on the image that the swapchain handed out (or did not): an
    /// out-of-date or suboptimal swapchain is noted as needing a resize; an
    /// out-of-date one draws nothing this frame.
    pub fn on_acquire(&mut self, outcome: AcquireOutcome) -> (step: AcquireStep)
        ensures
            final(self)@.frame == old(self)@.frame,
            final(self)@.extent == old(self)@.extent,
            match outcome {
                AcquireOutcome::Acquired { image_index, suboptimal } => {
                    &&& step == AcquireStep::Draw(image_index)
                    &&& final(self)@.resized == (old(self)@.resized || suboptimal)
                },
                AcquireOutcome::OutOfDate => {
                    &&& step == AcquireStep::Skip
                    &&& final(self)@.resized
                },
                AcquireOutcome::Failed(code) => {
                    &&& step == AcquireStep::Fail(code)
                    &&& final(self)@.resized == old(self)@.resized
                },
            },
    {
        proof {
            use_type_invariant(&*self);
        }
        match outcome {
            AcquireOutcome::Acquired { image_index, suboptimal } => {
                if suboptimal {
                    self.resized = true;
                }
                AcquireStep::Draw(image_index)
            },
            AcquireOutcome::OutOfDate => {
                self.resized = true;
                AcquireStep::Skip
            },
            AcquireOutcome::Failed(code) => AcquireStep::Fail(code),
        }
    }

    /// Decides on how presenting went: unless it failed, the next frame
    /// slot comes up; an out-of-date or suboptimal swapchain is noted as
    /// needing a resize. A failure is handed back with its result code, and
    /// the slot stays.
    pub fn on_present(&mut self, outcome: PresentOutcome) -> (result: Result<(), i32>)
        ensures
            final(self)@.extent == old(self)@.extent,
            match outcome {
                PresentOutcome::Presented { suboptimal } => {
                    &&& result == Ok::<(), i32>(())
                    &&& final(self)@.frame == spec_next_frame(old(self)@.frame)
                    &&& final(self)@.frame == (old(self)@.frame + 1) % 2
                    &&& final(self)@.resized == (old(self)@.resized || suboptimal)
                },
                PresentOutcome::OutOfDate => {
                    &&& result == Ok::<(), i32>(())
                    &&& final(self)@.frame == spec_next_frame(old(self)@.frame)
                    &&& final(self)@.frame == (old(self)@.frame + 1) % 2
                    &&& final(self)@.resized
                },
                PresentOutcome::Failed(code) => {
                    &&& result == Err::<(), i32>(code)
                    &&& final(self)@.frame == old(self)@.frame
                    &&& final(self)@.resized == old(self)@.resized
                },
            },
    {
        proof {
            use_type_invariant(&*self);
        }
        match outcome {
            PresentOutcome::Presented { suboptimal } => {
                if suboptimal {
                    self.resized = true;
                }
            },
            PresentOutcome::OutOfDate => {
                self.resized = true;
            },
            PresentOutcome::Failed(code) => {
                return Err(code);
            },
        }
        self.frame = (self.frame + 1) % MAX_FRAMES_IN_FLIGHT;
        Ok(())
    }
}

/// Presenting `MAX_FRAMES_IN_FLIGHT` frames in a row brings the loop back to
/// the slot it started from, having used every slot once.
pub proof fn lemma_frames_rotate(frame: int)
    requires
        0 <= frame < MAX_FRAMES_IN_FLIGHT,
    ensures
        spec_next_frame(frame) != frame,
        spec_next_frame(spec_next_frame(frame)) == frame,
        0 <= spec_next_frame(frame) < MAX_FRAMES_IN_FLIGHT,
{
}

} // verus!
