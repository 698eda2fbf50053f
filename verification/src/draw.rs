//! Grid-to-screen coordinate scaling used by the rendering collaborator.
//!
//! A grid cell is a square of `BRICK_SIZE` pixels; a grid coordinate scales
//! to a pixel offset by that factor. The unsigned form clamps at the edges
//! of its range: negative coordinates scale to 0 and overlarge products to
//! the greatest representable value, matching a saturating conversion.

use vstd::prelude::*;

verus! {

/// Pixel size of one grid cell.
pub const BRICK_SIZE: i64 = 25;

/// The pixel offset of grid coordinate `c`: `BRICK_SIZE * c`, clamped into
/// the u32 range.
pub open spec fn scaled_to_u32(c: int) -> int {
    if BRICK_SIZE * c < 0 {
        0
    } else if BRICK_SIZE * c > u32::MAX {
        u32::MAX as int
    } else {
        BRICK_SIZE * c
    }
}

/// The pixel offset of a grid coordinate, as an unsigned screen coordinate.
pub fn to_u32(game_coord: i32) -> (r: u32)
    ensures
        r as int == scaled_to_u32(game_coord as int),
{
    let wide: i64 = (game_coord as i64) * BRICK_SIZE;
    if wide < 0 {
        0
    } else if wide > (u32::MAX as i64) {
        u32::MAX
    } else {
        wide as u32
    }
}

} // verus!
