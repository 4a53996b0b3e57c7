//! Layout data for the "next piece" preview.
use vstd::prelude::*;

use crate::coord::Coord;

verus! {

/// Smallest of four values.
pub open spec fn min4(a: int, b: int, c: int, d: int) -> int {
    let ab = if a <= b { a } else { b };
    let cd = if c <= d { c } else { d };
    if ab <= cd { ab } else { cd }
}

/// Largest value over four.
pub open spec fn max4(a: int, b: int, c: int, d: int) -> int {
    let ab = if a >= b { a } else { b };
    let cd = if c >= d { c } else { d };
    if ab >= cd { ab } else { cd }
}

/// The extent of four blocks: `(min_x, max_x, min_y, max_y)`.
pub fn bounding_box(blocks: &[Coord; 4]) -> (r: (i32, i32, i32, i32))
    ensures
        r.0 == min4(blocks[0].x as int, blocks[1].x as int, blocks[2].x as int, blocks[3].x as int),
        r.1 == max4(blocks[0].x as int, blocks[1].x as int, blocks[2].x as int, blocks[3].x as int),
        r.2 == min4(blocks[0].y as int, blocks[1].y as int, blocks[2].y as int, blocks[3].y as int),
        r.3 == max4(blocks[0].y as int, blocks[1].y as int, blocks[2].y as int, blocks[3].y as int),
{
    let mut min_x = blocks[0].x;
    let mut max_x = blocks[0].x;
    let mut min_y = blocks[0].y;
    let mut max_y = blocks[0].y;
    let mut i: usize = 1;
    while i < 4
        invariant
            1 <= i <= 4,
            forall|j: int| 0 <= j < i ==> min_x <= #[trigger] blocks[j].x <= max_x,
            forall|j: int| 0 <= j < i ==> min_y <= #[trigger] blocks[j].y <= max_y,
            exists|j: int| 0 <= j < i && min_x == #[trigger] blocks[j].x,
            exists|j: int| 0 <= j < i && max_x == #[trigger] blocks[j].x,
            exists|j: int| 0 <= j < i && min_y == #[trigger] blocks[j].y,
            exists|j: int| 0 <= j < i && max_y == #[trigger] blocks[j].y,
        decreases 4 - i,
    {
        let b = blocks[i];
        if b.x < min_x {
            min_x = b.x;
        }
        if b.x > max_x {
            max_x = b.x;
        }
        if b.y < min_y {
            min_y = b.y;
        }
        if b.y > max_y {
            max_y = b.y;
        }
        i += 1;
    }
    (min_x, max_x, min_y, max_y)
}

} // verus!
