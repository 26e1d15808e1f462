//! A minimal real-time rendering toolset built around an explicit,
//! low-level graphics API: swapchain acquisition and presentation, a
//! fence-based in-flight-frame synchronizer, and the resize/recreation
//! state machine that keeps render targets, pipeline viewport and
//! command buffers consistent with the window surface.
//!
//! The modules here hold the verified core: every decision the frame
//! lifecycle makes is a function from plain values to plain values with
//! a contract. The device, window and presentation engine themselves
//! are external collaborators; an unverified shell performs their calls
//! and hands the outcomes back to this crate.

use vstd::prelude::*;

pub mod device;
pub mod error;
pub mod geometry;
pub mod pipeline;
pub mod swapchain;
pub mod sync;

verus! {

/// Root marker for the toolset. The process entry point wires the
/// surface provider and device context to the verified core and runs
/// the event loop once; that wiring lives outside the verified crate.
pub struct App;

} // verus!
