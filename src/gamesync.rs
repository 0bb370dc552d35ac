use vstd::prelude::*;

verus! {

/// The abstract state of frame synchronisation.
pub ghost struct SyncState<F> {
    /// The fence of each slot; `None` where nothing was submitted.
    pub fences: Seq<Option<F>>,
    /// The slot that this frame targets.
    pub current: int,
    /// The slot that the previous frame targeted.
    pub previous: int,
}

/// `n` empty slots.
pub open spec fn empty_slots<F>(n: nat) -> Seq<Option<F>> {
    Seq::new(n, |i: int| None)
}

impl<F> SyncState<F> {
    /// There is a slot, and both cursors name one.
    pub open spec fn wf(self) -> bool {
        &&& self.fences.len() > 0
        &&& 0 <= self.current < self.fences.len()
        &&& 0 <= self.previous < self.fences.len()
    }

    /// `frames` empty slots, both cursors at slot 0.
    pub open spec fn fresh(frames: nat) -> SyncState<F> {
        SyncState { fences: empty_slots(frames), current: 0, previous: 0 }
    }

    pub open spec fn previous_fence(self) -> Option<F> {
        self.fences[self.previous]
    }

    pub open spec fn current_fence(self) -> Option<F> {
        self.fences[self.current]
    }

    /// This frame targets slot `i`.
    pub open spec fn with_current(self, i: int) -> SyncState<F> {
        SyncState { current: i, ..self }
    }

    /// The current slot takes `fence` and becomes the previous one.
    pub open spec fn retired(self, fence: Option<F>) -> SyncState<F> {
        SyncState { fences: self.fences.update(self.current, fence), previous: self.current, ..self }
    }
}

/// Completion fences of the frames in flight, one slot per swapchain image,
/// with the slot that this frame targets and the slot of the frame before.
pub struct GameSync<F> {
    previous_fence_i: usize,
    fences: Vec<Option<F>>,
    current_fence_i: usize,
}

impl<F> View for GameSync<F> {
    type V = SyncState<F>;

    closed spec fn view(&self) -> SyncState<F> {
        SyncState {
            fences: self.fences@,
            current: self.current_fence_i as int,
            previous: self.previous_fence_i as int,
        }
    }
}

impl<F> GameSync<F> {
    fn empty_fences(frames: usize) -> (r: Vec<Option<F>>)
        ensures
            r@ == empty_slots::<F>(frames as nat),
    {
        let mut fences: Vec<Option<F>> = Vec::new();
        let mut i: usize = 0;
        while i < frames
            invariant
                i <= frames,
                fences@ == empty_slots::<F>(i as nat),
            decreases frames - i,
        {
            fences.push(None);
            i = i + 1;
            assert(fences@ =~= empty_slots::<F>(i as nat));
        }
        fences
    }

    /// Empty slots for `frames` images, both cursors at slot 0.
    pub fn new(frames: usize) -> (r: GameSync<F>)
        requires
            frames > 0,
        ensures
            r@.wf(),
            r@ == SyncState::<F>::fresh(frames as nat),
    {
        GameSync { previous_fence_i: 0, fences: Self::empty_fences(frames), current_fence_i: 0 }
    }

    /// The fence of the slot that the previous frame targeted.
    pub fn get_prev(&self) -> (r: &Option<F>)
        requires
            self@.wf(),
        ensures
            *r == self@.previous_fence(),
    {
        &self.fences[self.previous_fence_i]
    }

    /// The fence of the slot that this frame targets.
    pub fn get_current(&self) -> (r: &Option<F>)
        requires
            self@.wf(),
        ensures
            *r == self@.current_fence(),
    {
        &self.fences[self.current_fence_i]
    }

    pub fn get_current_i(&self) -> (r: usize)
        ensures
            r == self@.current,
    {
        self.current_fence_i
    }

    /// The number of slots.
    pub fn image_count(&self) -> (r: usize)
        ensures
            r == self@.fences.len(),
    {
        self.fences.len()
    }

    /// Records the slot that this frame targets; the previous cursor stays.
    pub fn set_current(&mut self, current: usize)
        requires
            old(self)@.wf(),
            current < old(self)@.fences.len(),
        ensures
            final(self)@.wf(),
            final(self)@ == old(self)@.with_current(current as int),
    {
        self.current_fence_i = current;
    }

    /// Stores the fence of the frame just submitted in the current slot, then
    /// moves the previous cursor to that slot.
    pub fn update_fence(&mut self, current: Option<F>)
        requires
            old(self)@.wf(),
        ensures
            final(self)@.wf(),
            final(self)@ == old(self)@.retired(current),
    {
        let i = self.current_fence_i;
        self.fences.set(i, current);
        self.previous_fence_i = i;
    }

    /// Drops every fence for a new swapchain of `frames` images: all slots
    /// empty, both cursors at slot 0.
    pub fn rebuild(&mut self, frames: usize)
        requires
            frames > 0,
        ensures
            final(self)@.wf(),
            final(self)@ == SyncState::<F>::fresh(frames as nat),
    {
        self.fences = Self::empty_fences(frames);
        self.current_fence_i = 0;
        self.previous_fence_i = 0;
    }
}

/// Choosing this frame's slot leaves the previous fence as the frame before
/// committed it; retiring then puts the new fence in the chosen slot, which is
/// both the current and the previous slot from then on, and no other slot changes.
pub proof fn lemma_retire_order<F>(s: SyncState<F>, i: int, fence: Option<F>)
    requires
        s.wf(),
        0 <= i < s.fences.len(),
    ensures
        s.with_current(i).wf() && s.with_current(i).retired(fence).wf(),
        s.with_current(i).previous_fence() == s.previous_fence(),
        s.with_current(i).retired(fence).current_fence() == fence,
        s.with_current(i).retired(fence).previous_fence() == fence,
        forall|j: int|
            0 <= j < s.fences.len() && j != i ==> s.with_current(i).retired(fence).fences[j]
                == s.fences[j],
{
}

/// A rebuild leaves every slot empty and both cursors at slot 0, whatever came before.
pub proof fn lemma_fresh_is_empty<F>(frames: nat)
    requires
        frames > 0,
    ensures
        SyncState::<F>::fresh(frames).wf(),
        SyncState::<F>::fresh(frames).fences.len() == frames,
        forall|j: int| 0 <= j < frames ==> (#[trigger] SyncState::<F>::fresh(frames).fences[j]).is_none(),
        SyncState::<F>::fresh(frames).current == 0 && SyncState::<F>::fresh(frames).previous == 0,
{
}

} // verus!
