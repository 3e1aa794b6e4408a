//! Axis-aligned rectangles in fixed-point playfield coordinates.

use vstd::prelude::*;

verus! {

/// An axis-aligned rectangle: top-left corner plus size, in subunits
/// (thousandths of a playfield unit).
#[derive(Clone, Copy, PartialEq, Eq, Structural, Debug)]
pub struct Rectangle {
    pub x: i64,
    pub y: i64,
    pub width: i64,
    pub height: i64,
}

impl Rectangle {
    /// The horizontal coordinate of the rectangle's centroid.
    pub open spec fn center_x(self) -> int {
        self.x + self.width / 2
    }

    /// The vertical coordinate of the rectangle's centroid.
    pub open spec fn center_y(self) -> int {
        self.y + self.height / 2
    }
}

} // verus!
