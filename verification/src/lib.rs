//! Verified core of a Wayland compositor's kernel display (DRM/KMS) backend.
//!
//! The library models the display pipeline as plain data: hardware object
//! ids, property caches, atomic change batches, the connector state machine,
//! the plane/crtc allocator, double-buffered scanout memory and the present
//! scheduler.  Everything that talks to the kernel or a GPU driver lives
//! outside this crate; callers perform those calls and feed the outcomes back
//! in as values, so every decision the backend takes is verified here.

use vstd::prelude::*;

pub mod allocator;
pub mod backend;
pub mod buffer;
pub mod change;
pub mod client;
pub mod display_node;
pub mod drm;
pub mod format;
pub mod globals;
pub mod idle;
pub mod ifs;
pub mod inventory;
pub mod positioner;
pub mod present;
pub mod props;
pub mod rect;
pub mod stack;
pub mod usr;
pub mod video;
pub mod wl_display;

verus! {

/// Converts a microsecond count to whole milliseconds, truncating to 32 bits.
pub fn usec_to_msec(usec: u64) -> (msec: u32)
    ensures
        msec == (usec / 1000) as u32,
{
    (usec / 1000) as u32
}

} // verus!
