//! Planning a swapchain from what the surface reports: format, present
//! mode, extent and image count, combined into one configuration value.

use vstd::prelude::*;

use crate::error::RenderError;
use crate::extent::{chosen_extent, chosen_image_count, choose_image_count,
    choose_swapchain_extent, Extent2D, SurfaceCapabilities};
use crate::format::{choose_present_mode, choose_surface_format, resolved_format,
    resolved_present_mode, PresentMode, SurfaceFormat};

verus! {

/// Everything a new swapchain is created with.
#[derive(Clone, Copy, Debug, PartialEq, Eq, Structural)]
pub struct SwapchainConfig {
    pub format: SurfaceFormat,
    pub present_mode: PresentMode,
    pub extent: Extent2D,
    pub image_count: u32,
}

/// The configuration planning arrives at for the given surface reports and
/// requested window size, when at least one format is offered.
pub open spec fn planned_config(
    formats: Seq<SurfaceFormat>,
    modes: Seq<PresentMode>,
    caps: SurfaceCapabilities,
    width: u32,
    height: u32,
) -> SwapchainConfig
    recommends
        formats.len() > 0,
{
    SwapchainConfig {
        format: resolved_format(formats[0]),
        present_mode: resolved_present_mode(modes),
        extent: chosen_extent(caps, width, height),
        image_count: chosen_image_count(caps),
    }
}

/// Plan a swapchain. Fails exactly when the surface offers no format.
pub fn plan_swapchain(
    formats: &Vec<SurfaceFormat>,
    modes: &Vec<PresentMode>,
    caps: &SurfaceCapabilities,
    width: u32,
    height: u32,
) -> (r: Result<SwapchainConfig, RenderError>)
    requires
        caps.min_image_count < u32::MAX,
    ensures
        formats@.len() == 0 ==> r == Err::<SwapchainConfig, RenderError>(
            RenderError::SurfaceUnsupported,
        ),
        formats@.len() > 0 ==> r == Ok::<SwapchainConfig, RenderError>(
            planned_config(formats@, modes@, *caps, width, height),
        ),
{
    let format = match choose_surface_format(formats) {
        Ok(f) => f,
        Err(e) => {
            return Err(e);
        },
    };
    let present_mode = choose_present_mode(modes);
    let extent = choose_swapchain_extent(caps, width, height);
    let image_count = choose_image_count(caps);
    Ok(SwapchainConfig { format, present_mode, extent, image_count })
}

} // verus!
