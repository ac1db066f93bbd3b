//! Sample counting and invalidation of the accumulation target.
//!
//! The accumulation target refines one image over many frames. Its contents
//! are only meaningful for one view and one size: whenever the camera moves or
//! the viewport is resized, the next dispatch has to start over.

use vstd::prelude::*;

verus! {

/// Size of the render target in pixels.
#[derive(Clone, Copy, Debug, PartialEq, Eq, Structural)]
pub struct Viewport {
    pub width: u32,
    pub height: u32,
}

/// What one dispatch is told about the accumulation target.
#[derive(Clone, Copy, Debug, PartialEq, Eq, Structural)]
pub struct FrameParams {
    /// Number of samples that the target holds for the current view.
    pub sample_count: u32,
    /// The target holds nothing for the current view: whatever is in it must
    /// be discarded by this dispatch.
    pub stale: bool,
}

/// `count + 1`, held at `u32::MAX` once it is reached.
pub open spec fn next_count(count: u32) -> u32 {
    if count < u32::MAX {
        (count + 1) as u32
    } else {
        u32::MAX
    }
}

/// Mathematical model of [`AccumulationState`].
pub struct Accumulation {
    /// Number of samples that the target holds for the current view.
    pub sample_count: u32,
    pub viewport: Viewport,
    /// The target was invalidated and no dispatch has run since.
    pub stale: bool,
}

impl Accumulation {
    /// A stale target counts no samples.
    pub open spec fn wf(self) -> bool {
        self.stale ==> self.sample_count == 0
    }

    /// The state of a target that was just allocated: it holds no samples,
    /// and nothing that would have to be discarded.
    pub open spec fn fresh(viewport: Viewport) -> Self {
        Accumulation { sample_count: 0, viewport, stale: false }
    }

    /// The camera changed: progress is dropped, the size stays.
    pub open spec fn invalidate(self) -> Self {
        Accumulation { sample_count: 0, viewport: self.viewport, stale: true }
    }

    /// A resize request. A request with a zero dimension changes nothing;
    /// any other one, also to the size already held, drops all progress.
    pub open spec fn resize(self, width: u32, height: u32) -> Self {
        if width == 0 || height == 0 {
            self
        } else {
            Accumulation { sample_count: 0, viewport: Viewport { width, height }, stale: true }
        }
    }

    /// The parameters handed to the dispatch of a frame in which the camera
    /// did (`changed`) or did not change.
    pub open spec fn observes(self, changed: bool) -> FrameParams {
        if changed || self.stale {
            FrameParams { sample_count: 0, stale: true }
        } else {
            FrameParams { sample_count: self.sample_count, stale: false }
        }
    }

    /// The state after that frame's dispatch, which added one sample to what
    /// it was told about.
    pub open spec fn frame(self, changed: bool) -> Self {
        Accumulation {
            sample_count: next_count(self.observes(changed).sample_count),
            viewport: self.viewport,
            stale: false,
        }
    }
}

/// Owner of the progressive-refinement bookkeeping: the number of samples in
/// the target, the viewport it is valid for, and the pending invalidation.
#[derive(Clone, Copy, Debug)]
pub struct AccumulationState {
    sample_count: u32,
    viewport: Viewport,
    stale: bool,
}

impl View for AccumulationState {
    type V = Accumulation;

    closed spec fn view(&self) -> Accumulation {
        Accumulation { sample_count: self.sample_count, viewport: self.viewport, stale: self.stale }
    }
}

impl AccumulationState {
    /// Bookkeeping for a target that was just allocated at `width` x `height`.
    pub fn new(width: u32, height: u32) -> (state: Self)
        ensures
            state@ == Accumulation::fresh(Viewport { width, height }),
            state@.wf(),
    {
        AccumulationState { sample_count: 0, viewport: Viewport { width, height }, stale: false }
    }

    pub fn sample_count(&self) -> (count: u32)
        ensures
            count == self@.sample_count,
    {
        self.sample_count
    }

    pub fn viewport(&self) -> (viewport: Viewport)
        ensures
            viewport == self@.viewport,
    {
        self.viewport
    }

    pub fn is_stale(&self) -> (stale: bool)
        ensures
            stale == self@.stale,
    {
        self.stale
    }

    /// Records that the camera changed.
    pub fn invalidate(&mut self)
        ensures
            final(self)@ == old(self)@.invalidate(),
            final(self)@.wf(),
    {
        self.sample_count = 0;
        self.stale = true;
    }

    /// Handles a resize request and reports whether the target has to be
    /// reallocated. A request with a zero dimension is ignored.
    pub fn resize(&mut self, width: u32, height: u32) -> (applied: bool)
        ensures
            applied == (width > 0 && height > 0),
            final(self)@ == old(self)@.resize(width, height),
            old(self)@.wf() ==> final(self)@.wf(),
    {
        if width == 0 || height == 0 {
            return false;
        }
        self.viewport = Viewport { width, height };
        self.sample_count = 0;
        self.stale = true;
        true
    }

    /// Advances by one frame and returns what its dispatch is told.
    ///
    /// The dispatch is told 0 samples and a stale target when the camera
    /// changed in this frame or the target was invalidated since the last
    /// dispatch; otherwise it is told one sample more than the dispatch
    /// before. The count stays at `u32::MAX` once it got there.
    pub fn frame(&mut self, changed: bool) -> (params: FrameParams)
        ensures
            params == old(self)@.observes(changed),
            final(self)@ == old(self)@.frame(changed),
            final(self)@.wf(),
    {
        let stale = changed || self.stale;
        let sample_count = if stale {
            0
        } else {
            self.sample_count
        };
        self.sample_count = if sample_count < u32::MAX {
            sample_count + 1
        } else {
            u32::MAX
        };
        self.stale = false;
        FrameParams { sample_count, stale }
    }
}

/// Invalidation: the dispatch of a frame in which the camera changed is told
/// that the target is stale and holds no samples, whatever came before.
pub proof fn lemma_change_restarts(state: Accumulation)
    ensures
        state.observes(true) == (FrameParams { sample_count: 0, stale: true }),
{
}

/// Invalidation: after an accepted resize, the next dispatch is told that the
/// target is stale and holds no samples, whether or not the camera changed in
/// that frame.
pub proof fn lemma_resize_restarts(state: Accumulation, width: u32, height: u32, changed: bool)
    requires
        width > 0,
        height > 0,
    ensures
        state.resize(width, height).observes(changed) == (FrameParams {
            sample_count: 0,
            stale: true,
        }),
        state.resize(width, height).viewport == (Viewport { width, height }),
{
}

/// Without a change or a resize, each frame adds one sample to the one before.
pub proof fn lemma_steady_frames_count_up(state: Accumulation)
    ensures
        state.frame(false).observes(false) == (FrameParams {
            sample_count: next_count(state.observes(false).sample_count),
            stale: false,
        }),
{
}

} // verus!
