use vstd::prelude::*;

use crate::gamesync::{GameSync, SyncState};

verus! {

/// What acquiring the next swapchain image gave.
#[derive(Clone, Copy, PartialEq, Eq, Structural, Debug)]
pub enum AcquireOutcome {
    /// An image to render into; `suboptimal` when the surface still works but
    /// no longer matches the swapchain.
    Acquired { image: usize, suboptimal: bool },
    /// The surface changed and the swapchain no longer fits it.
    OutOfDate,
    /// Any other failure.
    Failed,
}

/// What submitting and presenting a frame gave: the frame's completion fence,
/// or why there is none.
pub enum PresentOutcome<F> {
    Presented(F),
    OutOfDate,
    Failed,
}

/// What the driver does next with this frame.
#[derive(Clone, Copy, PartialEq, Eq, Structural, Debug)]
pub enum FrameStep {
    /// Nothing is submitted or presented this frame.
    Skip,
    /// The failure cannot be recovered from.
    Abort,
    /// Wait on the slot's fence if it holds one, then submit and present `image`.
    Submit { image: usize },
}

/// What recreating the swapchain gave.
#[derive(Clone, Copy, PartialEq, Eq, Structural, Debug)]
pub enum RebuildOutcome {
    Recreated { image_count: usize },
    /// The surface's current size cannot back a swapchain; try again later.
    ExtentNotSupported,
}

/// Whether a surface of `width` x `height` pixels has an area to render into.
pub fn should_render(width: u32, height: u32) -> (r: bool)
    ensures
        r == (width != 0 && height != 0),
{
    height != 0 && width != 0
}

/// The abstract state of the presentation loop.
pub ghost struct LoopState<F> {
    pub sync: SyncState<F>,
    /// The window was resized since the last rebuild.
    pub window_resized: bool,
    /// The surface reported the swapchain stale.
    pub recreate_swapchain: bool,
}

impl<F> LoopState<F> {
    /// Whether the validation pass must rebuild before the next acquire.
    pub open spec fn rebuild_pending(self) -> bool {
        self.window_resized || self.recreate_swapchain
    }
}

/// The decisions of the frame loop: when to rebuild the swapchain, which slot a
/// frame targets, and which fence each slot keeps.
pub struct PresentationLoop<F> {
    sync: GameSync<F>,
    window_resized: bool,
    recreate_swapchain: bool,
}

impl<F> View for PresentationLoop<F> {
    type V = LoopState<F>;

    closed spec fn view(&self) -> LoopState<F> {
        LoopState {
            sync: self.sync@,
            window_resized: self.window_resized,
            recreate_swapchain: self.recreate_swapchain,
        }
    }
}

impl<F> PresentationLoop<F> {
    /// A loop over a swapchain of `image_count` images, with no rebuild pending.
    pub fn new(image_count: usize) -> (r: PresentationLoop<F>)
        requires
            image_count > 0,
        ensures
            r@.sync.wf(),
            r@.sync == SyncState::<F>::fresh(image_count as nat),
            !r@.window_resized && !r@.recreate_swapchain,
    {
        PresentationLoop { sync: GameSync::new(image_count), window_resized: false, recreate_swapchain: false }
    }

    pub fn get_sync(&self) -> (r: &GameSync<F>)
        ensures
            r@ == self@.sync,
    {
        &self.sync
    }

    /// The window changed size: the next validation pass rebuilds.
    pub fn on_resize(&mut self)
        ensures
            final(self)@ == (LoopState { window_resized: true, ..old(self)@ }),
    {
        self.window_resized = true;
    }

    /// Whether the validation pass must rebuild now: a rebuild is flagged and
    /// the window has an area to render into.
    pub fn validate(&self, should_render: bool) -> (r: bool)
        ensures
            r == (self@.rebuild_pending() && should_render),
    {
        (self.window_resized || self.recreate_swapchain) && should_render
    }

    /// Takes in a swapchain rebuild. On success every slot is emptied for the new
    /// image count, and the result says whether the viewport-dependent state
    /// must be regenerated (the window was resized).
    pub fn rebuild(&mut self, outcome: RebuildOutcome) -> (r: bool)
        requires
            old(self)@.sync.wf(),
            outcome matches RebuildOutcome::Recreated { image_count } ==> image_count > 0,
        ensures
            final(self)@.sync.wf(),
            !final(self)@.recreate_swapchain,
            match outcome {
                RebuildOutcome::Recreated { image_count } => {
                    &&& final(self)@.sync == SyncState::<F>::fresh(image_count as nat)
                    &&& !final(self)@.window_resized
                    &&& r == old(self)@.window_resized
                },
                RebuildOutcome::ExtentNotSupported => {
                    &&& final(self)@.sync == old(self)@.sync
                    &&& final(self)@.window_resized == old(self)@.window_resized
                    &&& !r
                },
            },
    {
        self.recreate_swapchain = false;
        match outcome {
            RebuildOutcome::Recreated { image_count } => {
                self.sync.rebuild(image_count);
                let resized = self.window_resized;
                self.window_resized = false;
                resized
            },
            RebuildOutcome::ExtentNotSupported => false,
        }
    }

    /// Takes in the result of acquiring an image. A stale surface skips the frame
    /// and flags a rebuild; another failure aborts; an image becomes this frame's
    /// slot, and a suboptimal one flags a rebuild too.
    pub fn begin_frame(&mut self, acquired: AcquireOutcome) -> (r: FrameStep)
        requires
            old(self)@.sync.wf(),
            acquired matches AcquireOutcome::Acquired { image, .. } ==> image
                < old(self)@.sync.fences.len(),
        ensures
            final(self)@.sync.wf(),
            final(self)@.window_resized == old(self)@.window_resized,
            match acquired {
                AcquireOutcome::Acquired { image, suboptimal } => {
                    &&& r == (FrameStep::Submit { image })
                    &&& final(self)@.sync == old(self)@.sync.with_current(image as int)
                    &&& final(self)@.recreate_swapchain == (old(self)@.recreate_swapchain || suboptimal)
                },
                AcquireOutcome::OutOfDate => {
                    &&& r == FrameStep::Skip
                    &&& final(self)@.sync == old(self)@.sync
                    &&& final(self)@.recreate_swapchain
                },
                AcquireOutcome::Failed => {
                    &&& r == FrameStep::Abort
                    &&& final(self)@ == old(self)@
                },
            },
    {
        match acquired {
            AcquireOutcome::Acquired { image, suboptimal } => {
                self.sync.set_current(image);
                if suboptimal {
                    self.recreate_swapchain = true;
                }
                FrameStep::Submit { image }
            },
            AcquireOutcome::OutOfDate => {
                self.recreate_swapchain = true;
                FrameStep::Skip
            },
            AcquireOutcome::Failed => FrameStep::Abort,
        }
    }

    /// Retires this frame's slot with the result of presenting it: the new fence
    /// on success, else no fence, and a rebuild flagged when the surface was stale.
    pub fn end_frame(&mut self, presented: PresentOutcome<F>)
        requires
            old(self)@.sync.wf(),
        ensures
            final(self)@.sync.wf(),
            final(self)@.window_resized == old(self)@.window_resized,
            match presented {
                PresentOutcome::Presented(fence) => {
                    &&& final(self)@.sync == old(self)@.sync.retired(Some(fence))
                    &&& final(self)@.recreate_swapchain == old(self)@.recreate_swapchain
                },
                PresentOutcome::OutOfDate => {
                    &&& final(self)@.sync == old(self)@.sync.retired(None)
                    &&& final(self)@.recreate_swapchain
                },
                PresentOutcome::Failed => {
                    &&& final(self)@.sync == old(self)@.sync.retired(None)
                    &&& final(self)@.recreate_swapchain == old(self)@.recreate_swapchain
                },
            },
    {
        let fence = match presented {
            PresentOutcome::Presented(fence) => Some(fence),
            PresentOutcome::OutOfDate => {
                self.recreate_swapchain = true;
                None
            },
            PresentOutcome::Failed => None,
        };
        self.sync.update_fence(fence);
    }
}

} // verus!
