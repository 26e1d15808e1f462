//! Typed errors of the toolset.
//!
//! Configuration errors mean the environment cannot present at all and
//! the process must abort; a provisioning error means a swapchain
//! accessor was called before the swapchain existed. Transient surface
//! conditions (out of date, suboptimal) are not errors: the frame
//! synchronizer absorbs them through its staleness flag.

use vstd::prelude::*;

verus! {

/// What can go wrong while provisioning or querying the toolset.
#[derive(Clone, Copy, Debug, PartialEq, Eq, Structural)]
pub enum EngineError {
    /// The device reports no supported surface format.
    NoSurfaceFormats,
    /// The device reports no supported composite-alpha mode.
    NoCompositeAlpha,
    /// A swapchain or render-pass accessor ran before provisioning.
    NotProvisioned,
}

} // verus!
