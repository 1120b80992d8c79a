//! Verified core of a frame-rendering backend: swapchain planning, frame
//! pacing via fences, cross-queue ownership handoff, staging uploads, and
//! recovery from a stale presentation surface.
//!
//! The library decides; an unverified adapter performs the GPU calls and
//! hands the outcomes back as plain events.

use vstd::prelude::*;

pub mod device;
pub mod error;
pub mod extent;
pub mod format;
pub mod glyph;
pub mod mipmap;
pub mod pt3;
pub mod scheduler;
pub mod shader;
pub mod sync;
pub mod ui;
pub mod upload;
pub mod swapchain;

verus! {

} // verus!
