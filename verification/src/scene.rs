//! Per-frame scene configuration: the render size.

use vstd::prelude::*;

verus! {

/// The render size of a frame: the override when both of its dimensions are
/// nonzero, else the current size.
pub fn select_render_size(
    width_override: u32,
    height_override: u32,
    current_width: u32,
    current_height: u32,
) -> (r: (u32, u32))
    ensures
        r == if width_override > 0 && height_override > 0 {
            (width_override, height_override)
        } else {
            (current_width, current_height)
        },
{
    if width_override > 0 && height_override > 0 {
        (width_override, height_override)
    } else {
        (current_width, current_height)
    }
}

} // verus!
