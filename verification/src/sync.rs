//! The synchronization registry: one fence and one "image available" /
//! "render finished" signal per in-flight frame slot, and one "ownership
//! transferred" signal per presentable image.
//!
//! Fences are the CPU-observable side; the signals model GPU-side
//! semaphores as armed (a signal operation is queued) or not.

use vstd::prelude::*;

verus! {

/// How many of the per-slot fences are unsignaled: frames whose wait has
/// not yet been satisfied.
pub open spec fn pending_frames(fences: Seq<bool>) -> int
    decreases fences.len(),
{
    if fences.len() == 0 {
        0
    } else {
        pending_frames(fences.drop_last()) + if fences.last() {
            0int
        } else {
            1int
        }
    }
}

/// There can never be more pending frames than fences.
pub proof fn lemma_pending_frames_bounded(fences: Seq<bool>)
    ensures
        0 <= pending_frames(fences) <= fences.len(),
    decreases fences.len(),
{
    if fences.len() > 0 {
        lemma_pending_frames_bounded(fences.drop_last());
    }
}

/// Build a vector of `n` copies of `value`.
pub fn bool_vec(n: usize, value: bool) -> (v: Vec<bool>)
    ensures
        v@.len() == n,
        forall|j: int| 0 <= j < n ==> v@[j] == value,
{
    let mut v: Vec<bool> = Vec::new();
    let mut i: usize = 0;
    while i < n
        invariant
            0 <= i <= n,
            v@.len() == i,
            forall|j: int| 0 <= j < i ==> v@[j] == value,
        decreases n - i,
    {
        v.push(value);
        i = i + 1;
    }
    v
}

/// The fixed pool of synchronization primitives.
#[derive(Clone, Debug)]
pub struct SyncRegistry {
    /// One per frame slot; `true` means signaled. Allocated pre-signaled so
    /// the first `K` frames do not block.
    pub fence_signaled: Vec<bool>,
    /// One per frame slot; armed by a successful image acquisition.
    pub image_available_armed: Vec<bool>,
    /// One per frame slot; armed by the render submission, waited on by
    /// presentation.
    pub render_finished_armed: Vec<bool>,
    /// One per presentable image, not per slot: it must outlive slot reuse
    /// while a transfer for that image may still be outstanding. Armed by
    /// the transfer submission's release, waited on by the graphics
    /// queue's acquire.
    pub ownership_armed: Vec<bool>,
}

impl SyncRegistry {
    /// The registry serves `slots` frame slots and `images` presentable
    /// images.
    pub open spec fn wf(self, slots: int, images: int) -> bool {
        &&& self.fence_signaled@.len() == slots
        &&& self.image_available_armed@.len() == slots
        &&& self.render_finished_armed@.len() == slots
        &&& self.ownership_armed@.len() == images
    }

    /// Allocate the pool: fences pre-signaled, no signal armed.
    pub fn new(slots: usize, images: usize) -> (r: SyncRegistry)
        ensures
            r.wf(slots as int, images as int),
            forall|j: int| 0 <= j < slots ==> r.fence_signaled@[j],
            forall|j: int| 0 <= j < slots ==> !r.image_available_armed@[j],
            forall|j: int| 0 <= j < slots ==> !r.render_finished_armed@[j],
            forall|j: int| 0 <= j < images ==> !r.ownership_armed@[j],
    {
        SyncRegistry {
            fence_signaled: bool_vec(slots, true),
            image_available_armed: bool_vec(slots, false),
            render_finished_armed: bool_vec(slots, false),
            ownership_armed: bool_vec(images, false),
        }
    }

    /// Rebuild the per-image ownership signals for a new image count, as
    /// surface recreation does after draining the device: every fence is
    /// signaled again and no signal stays armed.
    pub fn reset_after_drain(&mut self, images: usize)
        ensures
            final(self).wf(old(self).fence_signaled@.len() as int, images as int),
            forall|j: int|
                0 <= j < old(self).fence_signaled@.len() ==> final(self).fence_signaled@[j],
            forall|j: int|
                0 <= j < old(self).fence_signaled@.len() ==> !final(self).image_available_armed@[j],
            forall|j: int|
                0 <= j < old(self).fence_signaled@.len() ==> !final(self).render_finished_armed@[j],
            forall|j: int| 0 <= j < images ==> !final(self).ownership_armed@[j],
    {
        let slots = self.fence_signaled.len();
        self.fence_signaled = bool_vec(slots, true);
        self.image_available_armed = bool_vec(slots, false);
        self.render_finished_armed = bool_vec(slots, false);
        self.ownership_armed = bool_vec(images, false);
    }
}

} // verus!
