//! Core of a deferred rendering pipeline, modelled over plain values.
//!
//! Scene geometry is rasterised into a multi-attachment g-buffer, a depth-only
//! shadow map is rendered from the directional light's point of view, and a
//! full-screen lighting pass resolves the final colour from both.  This crate
//! owns the decisions of that pipeline: which GPU objects exist, which state
//! each pass must establish, and which uniform values are submitted in which
//! order.  Every GPU-facing effect is expressed as a [`cmd::Cmd`] value; a thin
//! unverified interpreter turns commands into graphics-API calls.

use vstd::prelude::*;

pub mod cmd;
pub mod color;
pub mod frame;
pub mod gfx;
pub mod logging;
pub mod mesh;
pub mod overlay;
pub mod passes;
pub mod payload;
pub mod scene;
pub mod shader;
pub mod transform;

verus! {

/// Dimensions of the output surface, in pixels.
#[derive(Clone, Copy, PartialEq, Eq, Structural, Debug)]
pub struct SurfaceSize {
    pub width: u32,
    pub height: u32,
}

impl SurfaceSize {
    /// A size the pipeline accepts: neither dimension is zero, and both are
    /// small enough that a pixel count fits comfortably in a `u64`.
    pub open spec fn valid(self) -> bool {
        0 < self.width <= 0x10000 && 0 < self.height <= 0x10000
    }

    pub fn new(width: u32, height: u32) -> (s: SurfaceSize)
        requires
            0 < width <= 0x10000,
            0 < height <= 0x10000,
        ensures
            s == (SurfaceSize { width, height }),
            s.valid(),
    {
        SurfaceSize { width, height }
    }
}

} // verus!
