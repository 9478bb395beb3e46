//! Pixel formats a decoded frame can carry.

use vstd::prelude::*;

verus! {

/// The closed set of pixel layouts this core exposes.
///
/// A planar format stores each component in a plane of its own; a packed
/// format interleaves every component in a single plane.
#[derive(Clone, Copy, PartialEq, Eq, Structural, Debug)]
pub enum PixelFormat {
    /// Planar 4:2:0: one luma plane followed by two chroma planes.
    I420,
    /// Semi-planar 4:2:0: one luma plane and one interleaved chroma plane.
    Nv12,
    /// Packed 8-bit RGB in a single plane.
    Rgb24,
}

impl PixelFormat {
    /// How many planes a frame of this format has.
    pub open spec fn spec_plane_count(self) -> nat {
        match self {
            PixelFormat::I420 => 3,
            PixelFormat::Nv12 => 2,
            PixelFormat::Rgb24 => 1,
        }
    }

    /// How many planes a frame of this format has: 1 for packed formats,
    /// more for planar ones.
    pub fn plane_count(&self) -> (n: usize)
        ensures
            n == self.spec_plane_count(),
            1 <= n <= 4,
    {
        match self {
            PixelFormat::I420 => 3,
            PixelFormat::Nv12 => 2,
            PixelFormat::Rgb24 => 1,
        }
    }
}

} // verus!
