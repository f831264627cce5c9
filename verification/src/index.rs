use vstd::prelude::*;
use crate::convert::Convert;

verus! {

/// The position of a frame slot among the frame slots. Command buffers, fences
/// and semaphores are found by it, and by nothing else.
#[derive(Clone, Copy, Debug, PartialEq, Eq, Structural)]
pub struct FrameSlot(pub usize);

/// The position of an image in its swap chain, as the presentation engine hands
/// it out. Images, views and framebuffers are found by it, and by nothing else:
/// which image a frame gets is not for the renderer to choose, and has nothing
/// to do with the frame slot.
#[derive(Clone, Copy, Debug, PartialEq, Eq, Structural)]
pub struct ImageIndex(pub u32);

/// The slot after `slot` where there are `frames` slots: the next one, and the
/// first after the last.
pub open spec fn following(slot: usize, frames: usize) -> usize {
    if slot + 1 >= frames {
        0
    } else {
        (slot + 1) as usize
    }
}

impl FrameSlot {
    /// The slot that the frame after this one uses.
    pub fn next(self, frames: usize) -> (r: FrameSlot)
        requires
            self.0 < frames,
        ensures
            r.0 == following(self.0, frames),
            r.0 < frames,
    {
        if self.0 + 1 == frames {
            FrameSlot(0)
        } else {
            FrameSlot(self.0 + 1)
        }
    }
}

impl Convert<usize> for FrameSlot {
    /// The slot as a position in a vector of per-slot objects.
    fn conv(&self) -> (r: usize)
        ensures
            r == self.0,
    {
        self.0
    }
}

impl Convert<usize> for ImageIndex {
    /// The image as a position in a vector of per-image objects.
    fn conv(&self) -> (r: usize)
        ensures
            r == self.0,
    {
        self.0 as usize
    }
}

/// The slot index moves on by one modulo the number of slots, stays a slot, and
/// differs from the slot before it unless there is one slot only.
pub proof fn lemma_slots_cycle(slot: usize, frames: usize)
    requires
        slot < frames,
    ensures
        following(slot, frames) == (slot + 1) % (frames as int),
        following(slot, frames) < frames,
        following(slot, frames) != slot || frames == 1,
{
    if slot + 1 == frames {
        vstd::arithmetic::div_mod::lemma_mod_self_0(frames as int);
    } else {
        vstd::arithmetic::div_mod::lemma_small_mod((slot + 1) as nat, frames as nat);
    }
}

} // verus!
