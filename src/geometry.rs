use vstd::prelude::*;

verus! {

/// Horizontal distance between two consecutive rounds, in tenths of a canvas unit.
pub const ROUND_SPACING: i128 = 150;

/// Vertical distance between two authority lanes, in tenths of a canvas unit.
pub const LANE_SPACING: i128 = 50;

/// The lane index drawn at the bottom of the canvas.
pub const TOP_LANE: i128 = 3;

/// Offset of every lane from the canvas floor, in tenths of a canvas unit.
pub const LANE_OFFSET: i128 = 15;

/// A position on the canvas in fixed point: one unit of `x` or `y` is a tenth of a
/// canvas unit, so the renderer divides both by ten.
#[derive(Clone, Copy, Debug, PartialEq, Eq, Structural)]
pub struct Point {
    pub x: i128,
    pub y: i128,
}

/// The canvas position of the block of `authority` in `round`.
pub open spec fn spec_coordinates(authority: i64, round: i64) -> Point {
    Point {
        x: (round as int * ROUND_SPACING) as i128,
        y: ((TOP_LANE - authority as int) * LANE_SPACING + LANE_OFFSET) as i128,
    }
}

/// Rounds advance left to right and authorities are stacked in lanes.
pub fn coordinates(authority: i64, round: i64) -> (p: Point)
    ensures
        p == spec_coordinates(authority, round),
        p.x == round as int * ROUND_SPACING,
        p.y == (TOP_LANE - authority as int) * LANE_SPACING + LANE_OFFSET,
{
    let x: i128 = round as i128 * ROUND_SPACING;
    let y: i128 = (TOP_LANE - authority as i128) * LANE_SPACING + LANE_OFFSET;
    Point { x, y }
}

} // verus!
