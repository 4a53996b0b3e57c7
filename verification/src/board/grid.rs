use vstd::prelude::*;

use crate::pieces::TetrominoKind;

verus! {

pub const BOARD_WIDTH: usize = 10;

pub const BOARD_VISIBLE_HEIGHT: usize = 20;

/// Maximum vertical extent of any active piece above the visible playfield.
/// Set to 4 to cover I-piece SRS in-place rotation immediately after spawn,
/// which can place cells up to y = BOARD_VISIBLE_HEIGHT + 3.
pub const BOARD_BUFFER_HEIGHT: usize = 4;

pub const BOARD_HEIGHT: usize = 20;

/// One row of the playfield, indexed by column.
pub type Row = [Option<TetrominoKind>; BOARD_WIDTH];

/// The locked cells of the playfield.
pub struct Board {
    /// Row-major, indexed as `cells[y][x]` with `y = 0` at the bottom.
    /// Only locked blocks inside the visible playfield are stored.
    /// Each cell remembers the kind of tetromino it came from for coloring.
    pub cells: [Row; BOARD_HEIGHT],
}

/// `(x, y)` names a cell of the playfield.
pub open spec fn spec_in_bounds(x: int, y: int) -> bool {
    0 <= x < BOARD_WIDTH && 0 <= y < BOARD_HEIGHT
}

/// A row with no locked cell.
pub open spec fn empty_row() -> Seq<Option<TetrominoKind>> {
    Seq::new(BOARD_WIDTH as nat, |x: int| None)
}

impl Board {
    /// The content of cell `(x, y)`; `None` outside the playfield.
    pub open spec fn cell(self, x: int, y: int) -> Option<TetrominoKind> {
        if spec_in_bounds(x, y) {
            self.cells[y][x]
        } else {
            None
        }
    }

    /// Every cell of the playfield is empty.
    pub open spec fn is_clear(self) -> bool {
        forall|x: int, y: int| spec_in_bounds(x, y) ==> #[trigger] self.cell(x, y) is None
    }

    fn empty() -> (b: Board)
        ensures
            b.is_clear(),
    {
        let row: Row = [None; BOARD_WIDTH];
        let b = Board { cells: [row; BOARD_HEIGHT] };
        b
    }

    pub fn in_bounds(x: i32, y: i32) -> (r: bool)
        ensures
            r == spec_in_bounds(x as int, y as int),
    {
        x >= 0 && (x as usize) < BOARD_WIDTH && y >= 0 && (y as usize) < BOARD_HEIGHT
    }

    pub fn get(&self, x: i32, y: i32) -> (r: Option<TetrominoKind>)
        ensures
            r == self.cell(x as int, y as int),
    {
        if !Self::in_bounds(x, y) {
            return None;
        }
        self.cells[y as usize][x as usize]
    }

    pub fn set(&mut self, x: i32, y: i32, kind: TetrominoKind)
        ensures
            forall|i: int, j: int|
                #![trigger final(self).cell(i, j)]
                final(self).cell(i, j) == if i == x && j == y && spec_in_bounds(i, j) {
                    Some(kind)
                } else {
                    old(self).cell(i, j)
                },
    {
        if !Self::in_bounds(x, y) {
            return;
        }
        self.cells[y as usize][x as usize] = Some(kind);
    }

    pub fn clear_cell(&mut self, x: i32, y: i32)
        ensures
            forall|i: int, j: int|
                #![trigger final(self).cell(i, j)]
                final(self).cell(i, j) == if i == x && j == y {
                    None
                } else {
                    old(self).cell(i, j)
                },
    {
        if !Self::in_bounds(x, y) {
            return;
        }
        self.cells[y as usize][x as usize] = None;
    }

    pub fn is_empty_at(&self, x: i32, y: i32) -> (r: bool)
        ensures
            r == (self.cell(x as int, y as int) is None),
    {
        self.get(x, y).is_none()
    }

    pub fn reset(&mut self)
        ensures
            final(self).is_clear(),
    {
        *self = Board::empty();
    }
}

impl Default for Board {
    fn default() -> (b: Board)
        ensures
            b.is_clear(),
    {
        Board::empty()
    }
}

} // verus!
