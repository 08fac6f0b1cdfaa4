//! Screen coordinates and gesture segment directions.

use vstd::prelude::*;

verus! {

/// One integer screen coordinate snapshot, as sampled from the cursor.
#[derive(Clone, Copy, PartialEq, Eq, Structural, Debug)]
pub struct Point {
    pub x: i32,
    pub y: i32,
}

impl Point {
    pub fn new(x: i32, y: i32) -> (p: Point)
        ensures
            p.x == x,
            p.y == y,
    {
        Point { x, y }
    }
}

/// Sign of an accepted motion segment in the confirm gesture.
///
/// `Positive` is a down-right diagonal segment; `Negative` is a
/// straight downward segment with the horizontal coordinate roughly
/// constant.
#[derive(Clone, Copy, PartialEq, Eq, Structural, Debug)]
pub enum Direction {
    Positive,
    Negative,
}

} // verus!
