use vstd::prelude::*;

verus! {

/// The number of frame slots that a renderer has unless told otherwise: so
/// many frames can be in flight at once.
pub const MAX_FRAME_DRAWS: usize = 2;

} // verus!
