//! The numbers of the two-camera rig: a main camera at the window's full
//! resolution, and a pixel camera whose low-resolution picture is shown on a
//! canvas in front of the main camera.

use vstd::prelude::*;

verus! {

/// Pixels of the canvas per world unit.
pub const PIXELS_PER_UNIT: u16 = 32;

/// First extent of the canvas, in world units. The main camera shows at least
/// this many units across.
pub const UNIT_HEIGHT: u16 = 16;

/// Second extent of the canvas, in world units. The main camera shows at
/// least this many units from top to bottom.
pub const UNIT_WIDTH: u16 = 8;

/// Number of the render layer that the main camera draws. The canvas is on it.
pub const HIGH_RES_LAYER: usize = 0;

/// Number of the render layer that the pixel camera draws.
pub const PIXEL_PERFECT_LAYER: usize = 1;

/// The two cameras draw different layers, so the pixel camera never draws the
/// canvas that shows its own picture.
pub proof fn lemma_layers_are_apart()
    ensures
        HIGH_RES_LAYER != PIXEL_PERFECT_LAYER,
{
}

} // verus!
