//! The decisions of an interactive GPU render loop, apart from the window
//! system and the GPU: which frame slot a redraw uses, when a slot's earlier
//! submission must be waited for, when the loop exits, what is drawn, and how
//! the timing line shown on screen is laid out.
use vstd::prelude::*;

pub mod frames;
pub mod info;
pub mod laws;

verus! {

/// Number of frames that may be in flight on the GPU at once.
pub const NUM_FRAMES: usize = 2;

/// Width in pixels of the image the renderer draws.
pub const WIDTH: usize = 2048;

/// Height in pixels of the image the renderer draws.
pub const HEIGHT: usize = 1536;

/// The size of the window and of its swapchain: half the rendered image in
/// each direction.
pub fn surface_size() -> (r: (usize, usize))
    ensures
        r.0 == WIDTH / 2,
        r.1 == HEIGHT / 2,
        r.0 * 2 == WIDTH,
        r.1 * 2 == HEIGHT,
{
    (WIDTH / 2, HEIGHT / 2)
}

} // verus!
