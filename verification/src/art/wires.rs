use vstd::prelude::*;
use crate::fixed::SCALE;

verus! {

/// The wire spritesheet's total size in texels, in fixed-point
/// steps.
pub fn size() -> (r: [i64; 2])
    ensures
        r@.len() == 2,
        r@[0] == 32 * SCALE,
        r@[1] == 32 * SCALE,
{
    [32 * SCALE, 32 * SCALE]
}

/// The sub-rectangle of the wire spritesheet that the square tile
/// samples.
pub fn rect() -> (r: [i64; 4])
    ensures
        r@.len() == 4,
        r@[0] == 0,
        r@[1] == 0,
        r@[2] == 32 * SCALE,
        r@[3] == 32 * SCALE,
{
    [0, 0, 32 * SCALE, 32 * SCALE]
}

/// The default half-bright tint of a wire tile.
pub fn default_tint() -> (r: [i64; 4])
    ensures
        r@.len() == 4,
        r@[0] == SCALE / 2,
        r@[1] == SCALE / 2,
        r@[2] == SCALE / 2,
        r@[3] == SCALE,
{
    [SCALE / 2, SCALE / 2, SCALE / 2, SCALE]
}

} // verus!
