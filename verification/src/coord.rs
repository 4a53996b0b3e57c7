use vstd::prelude::*;

verus! {

/// An integer vector on the playfield grid: either a cell position or an
/// offset between cells. `y` grows upwards (row 0 is the bottom row).
#[derive(Clone, Copy, Debug, PartialEq, Eq, Hash, Structural)]
pub struct Coord {
    pub x: i32,
    pub y: i32,
}

impl Coord {
    pub fn new(x: i32, y: i32) -> (c: Coord)
        ensures
            c.x == x,
            c.y == y,
    {
        Coord { x, y }
    }
}

} // verus!
