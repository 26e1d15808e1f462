//! Drawable sizes and viewports.
//!
//! A surface reports its drawable size as a pair of pixel counts; the
//! viewport derives from it. The depth range of every viewport in this
//! design is the full `[0, 1]` interval and is therefore not recorded.

use vstd::prelude::*;

verus! {

/// A drawable size in pixels, as the surface provider reports it.
#[derive(Clone, Copy, Debug, PartialEq, Eq, Structural)]
pub struct Extent {
    pub width: u32,
    pub height: u32,
}

/// The region of the surface that rendering covers: an offset plus an
/// extent. The offset is always the origin in this design, but it is
/// part of the viewport data the pipeline bakes in.
#[derive(Clone, Copy, Debug, PartialEq, Eq, Structural)]
pub struct Viewport {
    pub offset_x: u32,
    pub offset_y: u32,
    pub extent: Extent,
}

impl Viewport {
    /// The viewport covering a whole drawable of the given size.
    pub fn from_extent(extent: Extent) -> (v: Viewport)
        ensures
            v == (Viewport { offset_x: 0, offset_y: 0, extent }),
    {
        Viewport { offset_x: 0, offset_y: 0, extent }
    }
}

} // verus!
