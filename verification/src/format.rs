//! Surface format and present mode selection.
//!
//! The renderer takes the first format the surface offers, substituting a
//! fixed sRGB-like default when the surface leaves the choice open, and
//! prefers the low-latency mailbox present mode over the always-supported
//! FIFO fallback.

use vstd::prelude::*;

use crate::error::RenderError;

verus! {

/// A pixel format code as the surface reports it.
#[derive(Clone, Copy, Debug, PartialEq, Eq, Structural)]
pub enum ImageFormat {
    /// The surface reports no preference.
    Undefined,
    /// The fixed default used when the surface reports no preference.
    B8G8R8Unorm,
    /// Any other concrete format, by its raw code.
    Other(u32),
}

/// A format together with its color space code.
#[derive(Clone, Copy, Debug, PartialEq, Eq, Structural)]
pub struct SurfaceFormat {
    pub format: ImageFormat,
    pub color_space: u32,
}

/// A presentation mode offered by the surface.
#[derive(Clone, Copy, Debug, PartialEq, Eq, Structural)]
pub enum PresentMode {
    /// Low-latency, non-blocking triple buffering.
    Mailbox,
    /// The always-supported blocking queue.
    Fifo,
    /// Any other mode, by its raw code.
    Other(u32),
}

/// What format selection yields for a first offer `f`: `f` itself, except
/// that an undefined format becomes the fixed default in `f`'s color space.
pub open spec fn resolved_format(f: SurfaceFormat) -> SurfaceFormat {
    if f.format == ImageFormat::Undefined {
        SurfaceFormat { format: ImageFormat::B8G8R8Unorm, color_space: f.color_space }
    } else {
        f
    }
}

/// Pick the surface format: the first offer, resolved. An empty offer list
/// means no device/format exists and is an error.
pub fn choose_surface_format(formats: &Vec<SurfaceFormat>) -> (r: Result<
    SurfaceFormat,
    RenderError,
>)
    ensures
        formats@.len() == 0 ==> r == Err::<SurfaceFormat, RenderError>(
            RenderError::SurfaceUnsupported,
        ),
        formats@.len() > 0 ==> r == Ok::<SurfaceFormat, RenderError>(resolved_format(formats@[0])),
{
    if formats.len() == 0 {
        Err(RenderError::SurfaceUnsupported)
    } else {
        let first = formats[0];
        if first.format == ImageFormat::Undefined {
            Ok(SurfaceFormat { format: ImageFormat::B8G8R8Unorm, color_space: first.color_space })
        } else {
            Ok(first)
        }
    }
}

/// What present mode selection yields: mailbox when it is offered, FIFO
/// otherwise.
pub open spec fn resolved_present_mode(modes: Seq<PresentMode>) -> PresentMode {
    if modes.contains(PresentMode::Mailbox) {
        PresentMode::Mailbox
    } else {
        PresentMode::Fifo
    }
}

/// Pick the present mode, preferring mailbox and falling back to FIFO.
pub fn choose_present_mode(modes: &Vec<PresentMode>) -> (r: PresentMode)
    ensures
        r == resolved_present_mode(modes@),
{
    let mut i: usize = 0;
    while i < modes.len()
        invariant
            0 <= i <= modes@.len(),
            forall|j: int| 0 <= j < i ==> modes@[j] != PresentMode::Mailbox,
        decreases modes@.len() - i,
    {
        if modes[i] == PresentMode::Mailbox {
            assert(modes@.contains(PresentMode::Mailbox));
            return PresentMode::Mailbox;
        }
        i += 1;
    }
    assert(forall|j: int| 0 <= j < modes@.len() ==> modes@[j] != PresentMode::Mailbox);
    assert(!modes@.contains(PresentMode::Mailbox));
    PresentMode::Fifo
}

} // verus!
