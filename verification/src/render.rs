//! The render loop's share of the frame: where the figure may be drawn.
use vstd::prelude::*;

verus! {

/// Width of the strip at the window's side that the control panel covers.
pub const PANEL_WIDTH: usize = 300;

/// The area into which the figure is projected: the window without the
/// control panel's strip. It is computed anew in every frame, so a resized
/// window needs no further care.
pub fn canvas_size(width: usize, height: usize) -> (size: (usize, usize))
    requires
        width >= PANEL_WIDTH,
    ensures
        size.0 == width - PANEL_WIDTH,
        size.1 == height,
{
    (width - PANEL_WIDTH, height)
}

} // verus!
