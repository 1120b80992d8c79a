//! Pixel extents and the rules for sizing a swapchain from what the surface
//! reports: a fixed current extent wins; otherwise the caller's requested
//! size is clamped into the supported range.

use vstd::prelude::*;

verus! {

/// A two-dimensional pixel extent.
#[derive(Clone, Copy, Debug, PartialEq, Eq, Structural)]
pub struct Extent2D {
    pub width: u32,
    pub height: u32,
}

/// The slice of the surface capabilities that swapchain planning reads.
///
/// A `current_extent.width` equal to `u32::MAX` is the surface's way of
/// saying the extent is undefined and the swapchain may pick its own.
#[derive(Clone, Copy, Debug, PartialEq, Eq, Structural)]
pub struct SurfaceCapabilities {
    pub min_image_count: u32,
    pub max_image_count: u32,
    pub current_extent: Extent2D,
    pub min_image_extent: Extent2D,
    pub max_image_extent: Extent2D,
}

/// What `clamp` returns: `v` forced into `[lo, hi]`, with `lo` winning when
/// the bounds are inverted.
pub open spec fn spec_clamp(lo: u32, hi: u32, v: u32) -> u32 {
    if v < lo {
        lo
    } else if v > hi {
        hi
    } else {
        v
    }
}

/// Force `v` into the closed range `[lo, hi]`.
pub fn clamp(lo: u32, hi: u32, v: u32) -> (r: u32)
    ensures
        r == spec_clamp(lo, hi, v),
{
    if v < lo {
        lo
    } else if v > hi {
        hi
    } else {
        v
    }
}

/// The extent a new swapchain must use: the surface's fixed current extent
/// when it reports one, otherwise the requested size clamped into the
/// supported range.
pub open spec fn chosen_extent(caps: SurfaceCapabilities, width: u32, height: u32) -> Extent2D {
    if caps.current_extent.width != u32::MAX {
        caps.current_extent
    } else {
        Extent2D {
            width: spec_clamp(caps.min_image_extent.width, caps.max_image_extent.width, width),
            height: spec_clamp(caps.min_image_extent.height, caps.max_image_extent.height, height),
        }
    }
}

/// Pick the swapchain extent for a requested window size.
pub fn choose_swapchain_extent(
    caps: &SurfaceCapabilities,
    screen_width: u32,
    screen_height: u32,
) -> (r: Extent2D)
    ensures
        r == chosen_extent(*caps, screen_width, screen_height),
{
    if caps.current_extent.width != u32::MAX {
        caps.current_extent
    } else {
        Extent2D {
            width: clamp(
                caps.min_image_extent.width,
                caps.max_image_extent.width,
                screen_width,
            ),
            height: clamp(
                caps.min_image_extent.height,
                caps.max_image_extent.height,
                screen_height,
            ),
        }
    }
}

/// The number of presentable images to request: one more than the minimum,
/// clamped to the maximum when the surface reports one (zero means
/// unlimited).
pub open spec fn chosen_image_count(caps: SurfaceCapabilities) -> u32
    recommends
        caps.min_image_count < u32::MAX,
{
    if caps.max_image_count > 0 && caps.min_image_count + 1 > caps.max_image_count {
        caps.max_image_count
    } else {
        (caps.min_image_count + 1) as u32
    }
}

/// Pick how many presentable images to request from the surface.
pub fn choose_image_count(caps: &SurfaceCapabilities) -> (r: u32)
    requires
        caps.min_image_count < u32::MAX,
    ensures
        r == chosen_image_count(*caps),
{
    let mut count: u32 = caps.min_image_count + 1;
    if caps.max_image_count > 0 && count > caps.max_image_count {
        count = caps.max_image_count;
    }
    count
}

} // verus!
