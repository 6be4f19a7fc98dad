//! Coordinates of cells and the signed steps between them.

use vstd::prelude::*;

verus! {

/// The position of a cell: column `x`, row `y`.
#[derive(Clone, Copy, Debug, PartialEq, Eq, Structural)]
pub struct Coord {
    pub x: u32,
    pub y: u32,
}

/// A signed step from one cell to another.
#[derive(Clone, Copy, Debug, PartialEq, Eq, Structural)]
pub struct Offset {
    pub x: i32,
    pub y: i32,
}

impl Coord {
    /// The cell in column `x` and row `y`.
    pub fn new(x: u32, y: u32) -> (c: Coord)
        ensures
            c == (Coord { x, y }),
    {
        Coord { x, y }
    }

    /// The cell reached from `self` by `step`, if both of its components
    /// are still unsigned 32-bit numbers.
    pub open spec fn shifted(self, step: Offset) -> Option<Coord> {
        let x = self.x + step.x;
        let y = self.y + step.y;
        if 0 <= x <= u32::MAX && 0 <= y <= u32::MAX {
            Some(Coord { x: x as u32, y: y as u32 })
        } else {
            None
        }
    }

    /// Computes [`Coord::shifted`] in signed 64-bit arithmetic, so that a
    /// step below zero or beyond `u32::MAX` is noticed instead of wrapping.
    pub fn offset_by(self, step: Offset) -> (target: Option<Coord>)
        ensures
            target == self.shifted(step),
    {
        let x: i64 = self.x as i64 + step.x as i64;
        let y: i64 = self.y as i64 + step.y as i64;
        if 0 <= x && x <= u32::MAX as i64 && 0 <= y && y <= u32::MAX as i64 {
            Some(Coord { x: x as u32, y: y as u32 })
        } else {
            None
        }
    }
}

impl Offset {
    /// The step that changes a column by `x` and a row by `y`.
    pub fn new(x: i32, y: i32) -> (step: Offset)
        ensures
            step == (Offset { x, y }),
    {
        Offset { x, y }
    }
}

} // verus!
