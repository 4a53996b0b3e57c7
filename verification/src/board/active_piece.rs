use vstd::prelude::*;

use crate::coord::Coord;
use crate::pieces::rotation::spec_rotated;
use crate::pieces::srs::{lemma_shape_within_box, shape};
use crate::pieces::{Rotation, RotationDirection, TetrominoKind, blocks_for};

verus! {

/// The falling piece: its kind, the board position of its bounding box's
/// bottom-left corner, and its orientation.
#[derive(Clone, Copy, Debug, PartialEq, Eq, Structural)]
pub struct ActivePiece {
    pub kind: TetrominoKind,
    pub grid_position: Coord,
    pub rotation: Rotation,
}

/// Block offsets reach at most 3 cells right of and above the origin, so an
/// origin with this much room keeps every block coordinate inside `i32`.
pub open spec fn has_block_room(c: Coord) -> bool {
    c.x <= i32::MAX - 3 && c.y <= i32::MAX - 3
}

impl ActivePiece {
    /// Absolute column of block `i`.
    pub open spec fn block_x(self, i: int) -> int {
        self.grid_position.x + shape(self.kind, self.rotation)[i].x
    }

    /// Absolute row of block `i`.
    pub open spec fn block_y(self, i: int) -> int {
        self.grid_position.y + shape(self.kind, self.rotation)[i].y
    }

    /// The same piece with its origin moved by `(dx, dy)`.
    pub open spec fn shifted(self, dx: int, dy: int) -> ActivePiece {
        ActivePiece {
            grid_position: Coord {
                x: (self.grid_position.x + dx) as i32,
                y: (self.grid_position.y + dy) as i32,
            },
            ..self
        }
    }

    pub fn new(kind: TetrominoKind, grid_position: Coord) -> (p: ActivePiece)
        ensures
            p == (ActivePiece { kind, grid_position, rotation: Rotation::North }),
    {
        ActivePiece { kind, grid_position, rotation: Rotation::North }
    }

    /// Returns the absolute grid positions of the four blocks composing this piece.
    pub fn blocks(&self) -> (r: [Coord; 4])
        requires
            has_block_room(self.grid_position),
        ensures
            forall|i: int|
                0 <= i < 4 ==> (#[trigger] r[i]).x == self.block_x(i) && r[i].y == self.block_y(i),
    {
        let offsets = blocks_for(self.kind, self.rotation);
        proof {
            lemma_shape_within_box(self.kind, self.rotation);
        }
        let p = self.grid_position;
        let r = [
            Coord::new(p.x + offsets[0].x, p.y + offsets[0].y),
            Coord::new(p.x + offsets[1].x, p.y + offsets[1].y),
            Coord::new(p.x + offsets[2].x, p.y + offsets[2].y),
            Coord::new(p.x + offsets[3].x, p.y + offsets[3].y),
        ];
        r
    }

    pub fn moved_by(&self, offset: Coord) -> (p: ActivePiece)
        requires
            i32::MIN <= self.grid_position.x + offset.x <= i32::MAX,
            i32::MIN <= self.grid_position.y + offset.y <= i32::MAX,
        ensures
            p == self.shifted(offset.x as int, offset.y as int),
            p.grid_position.x == self.grid_position.x + offset.x,
            p.grid_position.y == self.grid_position.y + offset.y,
    {
        ActivePiece {
            grid_position: Coord::new(
                self.grid_position.x + offset.x,
                self.grid_position.y + offset.y,
            ),
            ..*self
        }
    }

    pub fn moved_down(&self) -> (p: ActivePiece)
        requires
            self.grid_position.y > i32::MIN,
        ensures
            p == self.shifted(0, -1),
            p.grid_position.x == self.grid_position.x,
            p.grid_position.y == self.grid_position.y - 1,
    {
        self.moved_by(Coord::new(0, -1))
    }

    pub fn rotated(&self, direction: RotationDirection) -> (p: ActivePiece)
        ensures
            p == (ActivePiece { rotation: spec_rotated(self.rotation, direction), ..*self }),
    {
        ActivePiece { rotation: self.rotation.rotated(direction), ..*self }
    }
}

} // verus!
