//! The error taxonomy of the rendering core.
//!
//! Stale- or suboptimal-surface conditions are recovered internally and never
//! surface here; everything below is fatal to the render loop.

use vstd::prelude::*;

verus! {

/// Which operation the device was performing when it failed.
#[derive(Clone, Copy, Debug, PartialEq, Eq, Structural)]
pub enum RenderStage {
    FenceWait,
    Acquire,
    TransferSubmit,
    HandoffSubmit,
    RenderSubmit,
    Present,
    SurfaceQuery,
    SwapchainBuild,
}

/// A fatal rendering failure, carrying enough context to tell the stages
/// apart without string parsing.
#[derive(Clone, Copy, Debug, PartialEq, Eq, Structural)]
pub enum RenderError {
    /// The surface offers no pixel format at all.
    SurfaceUnsupported,
    /// The device returned a fatal result code at the given stage.
    Device { stage: RenderStage, code: i32 },
    /// A shader binary was not a whole number of 32-bit words.
    InvalidShaderLength { len: usize },
    /// The device cannot blit with linear filtering, so a mip chain
    /// cannot be generated; a hard error rather than a silent fallback.
    LinearFilterUnsupported,
}

impl RenderError {
    /// The stage a device failure happened at, if this is one.
    pub fn device_stage(&self) -> (r: Option<RenderStage>)
        ensures
            r == (match *self {
                RenderError::Device { stage, code: _ } => Some(stage),
                _ => None::<RenderStage>,
            }),
    {
        match *self {
            RenderError::Device { stage, code: _ } => Some(stage),
            _ => None,
        }
    }
}

} // verus!
