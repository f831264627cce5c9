use vstd::prelude::*;
use crate::extent::Extent;

verus! {

/// The side length by which a surface says that it has no extent of its own and
/// takes the extent of the swap chain that is created for it.
pub const UNDEFINED_EXTENT: u32 = 0xFFFF_FFFF;

/// What a surface supports, as it was queried for one build of a swap chain,
/// together with the format, colour space and present mode chosen for it. A
/// snapshot is never changed once taken: the next build takes a new one.
#[derive(Clone, Copy, Debug, PartialEq, Eq, Structural)]
pub struct SurfaceCapabilities {
    pub min_image_count: u32,
    /// The most images a chain may have; zero where there is no limit.
    pub max_image_count: u32,
    pub current_extent: Extent,
    pub min_image_extent: Extent,
    pub max_image_extent: Extent,
    pub supported_transforms: u32,
    pub current_transform: u32,
    pub supported_usage_flags: u32,
    pub format: i32,
    pub color_space: i32,
    pub present_mode: i32,
}

impl SurfaceCapabilities {
    /// The snapshot that stands where none has been taken yet: every number
    /// zero.
    pub open spec fn zeroed() -> SurfaceCapabilities {
        let none = Extent { width: 0, height: 0 };
        SurfaceCapabilities {
            min_image_count: 0,
            max_image_count: 0,
            current_extent: none,
            min_image_extent: none,
            max_image_extent: none,
            supported_transforms: 0,
            current_transform: 0,
            supported_usage_flags: 0,
            format: 0,
            color_space: 0,
            present_mode: 0,
        }
    }

    pub fn empty() -> (r: SurfaceCapabilities)
        ensures
            r == SurfaceCapabilities::zeroed(),
    {
        let none = Extent { width: 0, height: 0 };
        SurfaceCapabilities {
            min_image_count: 0,
            max_image_count: 0,
            current_extent: none,
            min_image_extent: none,
            max_image_extent: none,
            supported_transforms: 0,
            current_transform: 0,
            supported_usage_flags: 0,
            format: 0,
            color_space: 0,
            present_mode: 0,
        }
    }

    /// Whether the surface has an extent of its own, which a chain must take.
    pub open spec fn fixed_extent(self) -> bool {
        self.current_extent.width != UNDEFINED_EXTENT && self.current_extent.height
            != UNDEFINED_EXTENT
    }

    /// What a presentation engine promises of its capabilities: the extent range
    /// is not empty, a fixed extent lies in it, and the limit on the image count,
    /// where there is one, is not under the minimum.
    pub open spec fn valid(self) -> bool {
        &&& self.min_image_extent.width <= self.max_image_extent.width
        &&& self.min_image_extent.height <= self.max_image_extent.height
        &&& self.fixed_extent() ==> self.current_extent.fits(
            self.min_image_extent,
            self.max_image_extent,
        )
        &&& self.max_image_count != 0 ==> self.min_image_count <= self.max_image_count
    }

    /// The extent of a chain for a window of extent `window`: the surface's own
    /// extent where it has one, else the window's, clamped to the supported range.
    pub open spec fn chain_extent(self, window: Extent) -> Extent {
        if self.fixed_extent() {
            self.current_extent
        } else {
            window.clamped(self.min_image_extent, self.max_image_extent)
        }
    }

    /// The number of images to ask for: one more than the minimum, or `requested`
    /// if that is more, but never over the limit, where there is one, nor over
    /// what a `u32` holds.
    pub open spec fn target_image_count(self, requested: u32) -> int {
        let wanted = if self.min_image_count + 1 >= requested {
            self.min_image_count + 1
        } else {
            requested as int
        };
        let limit = if self.max_image_count != 0 {
            self.max_image_count as int
        } else {
            u32::MAX as int
        };
        if wanted > limit {
            limit
        } else {
            wanted
        }
    }

    pub fn has_fixed_extent(&self) -> (r: bool)
        ensures
            r == self.fixed_extent(),
    {
        self.current_extent.width != UNDEFINED_EXTENT && self.current_extent.height
            != UNDEFINED_EXTENT
    }

    pub fn is_valid(&self) -> (r: bool)
        ensures
            r == self.valid(),
    {
        self.min_image_extent.width <= self.max_image_extent.width
            && self.min_image_extent.height <= self.max_image_extent.height && (
        !self.has_fixed_extent() || self.current_extent.is_within(
            &self.min_image_extent,
            &self.max_image_extent,
        )) && (self.max_image_count == 0 || self.min_image_count <= self.max_image_count)
    }

    /// The extent that a chain built for a window of extent `window` gets.
    pub fn surface_extent(&self, window: Extent) -> (r: Extent)
        ensures
            r == self.chain_extent(window),
            self.valid() ==> r.fits(self.min_image_extent, self.max_image_extent),
    {
        if self.has_fixed_extent() {
            self.current_extent
        } else {
            window.clamp(&self.min_image_extent, &self.max_image_extent)
        }
    }

    /// The number of images that a chain is asked for.
    pub fn image_count(&self, requested: u32) -> (r: u32)
        ensures
            r == self.target_image_count(requested),
    {
        let wanted: u32 = if self.min_image_count == u32::MAX {
            u32::MAX
        } else if self.min_image_count + 1 >= requested {
            self.min_image_count + 1
        } else {
            requested
        };
        if self.max_image_count != 0 && wanted > self.max_image_count {
            self.max_image_count
        } else {
            wanted
        }
    }
}

/// A chain's extent never leaves the range that valid capabilities give,
/// whatever extent the window has.
pub proof fn lemma_chain_extent_in_range(caps: SurfaceCapabilities, window: Extent)
    requires
        caps.valid(),
    ensures
        caps.chain_extent(window).fits(caps.min_image_extent, caps.max_image_extent),
{
}

/// An extent that already lies in the supported range is taken as it is, where
/// the surface has no extent of its own.
pub proof fn lemma_chain_extent_keeps_fitting(caps: SurfaceCapabilities, window: Extent)
    requires
        !caps.fixed_extent(),
        window.fits(caps.min_image_extent, caps.max_image_extent),
    ensures
        caps.chain_extent(window) == window,
{
}

/// The image count asked for is at least the minimum plus one and at least the
/// requested count, unless the limit or the width of a `u32` cuts it short, and
/// it lies between minimum and limit for valid capabilities.
pub proof fn lemma_image_count_bounds(caps: SurfaceCapabilities, requested: u32)
    ensures
        caps.max_image_count != 0 ==> caps.target_image_count(requested) <= caps.max_image_count,
        caps.max_image_count == 0 && caps.min_image_count < u32::MAX ==> caps.target_image_count(
            requested,
        ) > caps.min_image_count && caps.target_image_count(requested) >= requested,
        caps.valid() ==> caps.target_image_count(requested) >= caps.min_image_count,
        0 <= caps.target_image_count(requested) <= u32::MAX,
{
}

/// The format of four 8-bit channels, blue first, that is stored as it is.
pub const FORMAT_B8G8R8A8_UNORM: i32 = 44;

/// The colour space of ordinary displays.
pub const COLOR_SPACE_SRGB_NONLINEAR: i32 = 0;

/// The present mode that keeps one image waiting and replaces it by a newer
/// one whenever there is one.
pub const PRESENT_MODE_MAILBOX: i32 = 1;

/// The present mode that queues images and shows one at each refresh of the
/// display. Every surface supports it.
pub const PRESENT_MODE_FIFO: i32 = 2;

/// A colour format together with the colour space that its values are in.
#[derive(Clone, Copy, Debug, PartialEq, Eq, Structural)]
pub struct SurfaceFormat {
    pub format: i32,
    pub color_space: i32,
}

/// What a queue family can do for a surface.
#[derive(Clone, Copy, Debug, PartialEq, Eq, Structural)]
pub struct QueueFamily {
    /// Whether its queues take graphics work.
    pub graphics: bool,
    /// Whether its queues can present to the surface.
    pub presents: bool,
}

/// The format that a chain is built with where the surface supports it.
pub open spec fn preferred_format() -> SurfaceFormat {
    SurfaceFormat { format: FORMAT_B8G8R8A8_UNORM, color_space: COLOR_SPACE_SRGB_NONLINEAR }
}

/// The format to build chains with, of those that the surface supports: the
/// preferred one where it is among them, else the first; none where the surface
/// supports none.
pub open spec fn chosen_format(formats: Seq<SurfaceFormat>) -> Option<SurfaceFormat> {
    if formats.len() == 0 {
        None
    } else if formats.contains(preferred_format()) {
        Some(preferred_format())
    } else {
        Some(formats[0])
    }
}

/// The present mode to build chains with, of those that the surface supports:
/// mailbox where it is among them, else first in, first out.
pub open spec fn chosen_present_mode(modes: Seq<i32>) -> i32 {
    if modes.contains(PRESENT_MODE_MAILBOX) {
        PRESENT_MODE_MAILBOX
    } else {
        PRESENT_MODE_FIFO
    }
}

/// Whether a queue family can draw the frames and present them.
pub open spec fn suitable(family: QueueFamily) -> bool {
    family.graphics && family.presents
}

/// Chooses the format to build chains with.
pub fn get_surface_format(formats: &Vec<SurfaceFormat>) -> (r: Option<SurfaceFormat>)
    ensures
        r == chosen_format(formats@),
        r matches Some(format) ==> formats@.contains(format),
{
    let preferred = SurfaceFormat {
        format: FORMAT_B8G8R8A8_UNORM,
        color_space: COLOR_SPACE_SRGB_NONLINEAR,
    };
    let mut i: usize = 0;
    while i < formats.len()
        invariant
            i <= formats@.len(),
            preferred == preferred_format(),
            forall|j: int| 0 <= j < i ==> formats@[j] != preferred,
        decreases formats@.len() - i,
    {
        if formats[i].format == preferred.format && formats[i].color_space
            == preferred.color_space {
            return Some(preferred);
        }
        i = i + 1;
    }
    if formats.len() == 0 {
        None
    } else {
        Some(formats[0])
    }
}

/// Chooses the present mode to build chains with.
pub fn get_present_mode(modes: &Vec<i32>) -> (r: i32)
    ensures
        r == chosen_present_mode(modes@),
{
    let mut i: usize = 0;
    while i < modes.len()
        invariant
            i <= modes@.len(),
            forall|j: int| 0 <= j < i ==> modes@[j] != PRESENT_MODE_MAILBOX,
        decreases modes@.len() - i,
    {
        if modes[i] == PRESENT_MODE_MAILBOX {
            return PRESENT_MODE_MAILBOX;
        }
        i = i + 1;
    }
    PRESENT_MODE_FIFO
}

/// Chooses the queue family to submit and present with: the first that takes
/// graphics work and can present to the surface; none where there is none.
pub fn get_queue_family(families: &Vec<QueueFamily>) -> (r: Option<usize>)
    ensures
        r matches Some(index) ==> index < families@.len() && suitable(families@[index as int])
            && forall|j: int| 0 <= j < index ==> !suitable(#[trigger] families@[j]),
        r is None ==> forall|j: int| 0 <= j < families@.len() ==> !suitable(#[trigger] families@[j]),
{
    let mut i: usize = 0;
    while i < families.len()
        invariant
            i <= families@.len(),
            forall|j: int| 0 <= j < i ==> !suitable(#[trigger] families@[j]),
        decreases families@.len() - i,
    {
        if families[i].graphics && families[i].presents {
            return Some(i);
        }
        i = i + 1;
    }
    None
}

} // verus!
