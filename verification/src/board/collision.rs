use vstd::prelude::*;

use crate::pieces::srs::lemma_shape_within_box;

use super::active_piece::{ActivePiece, has_block_room};
use super::grid::{BOARD_BUFFER_HEIGHT, BOARD_HEIGHT, BOARD_WIDTH, Board};

verus! {

/// A block may occupy `(x, y)`: it is inside the playfield's columns, not
/// below the floor, not above the spawn buffer, and either in the spawn
/// buffer or on an empty cell.
pub open spec fn cell_free(board: Board, x: int, y: int) -> bool {
    &&& 0 <= x < BOARD_WIDTH
    &&& 0 <= y < BOARD_HEIGHT + BOARD_BUFFER_HEIGHT
    &&& (y >= BOARD_HEIGHT || board.cells[y][x] is None)
}

/// Every block of `piece` may be where it is.
pub open spec fn fits(piece: ActivePiece, board: Board) -> bool {
    forall|i: int|
        0 <= i < 4 ==> cell_free(board, #[trigger] piece.block_x(i), piece.block_y(i))
}

/// Returns `true` if every block of `piece` fits inside the playfield without
/// overlapping a locked cell. Blocks above the visible playfield (within the
/// spawn buffer) are tolerated so SRS rotations near the top can succeed.
pub fn can_place(piece: &ActivePiece, board: &Board) -> (r: bool)
    requires
        has_block_room(piece.grid_position),
    ensures
        r == fits(*piece, *board),
{
    let blocks = piece.blocks();
    let mut i: usize = 0;
    while i < 4
        invariant
            0 <= i <= 4,
            forall|j: int|
                0 <= j < 4 ==> (#[trigger] blocks[j]).x == piece.block_x(j) && blocks[j].y
                    == piece.block_y(j),
            forall|j: int|
                0 <= j < i ==> cell_free(*board, #[trigger] piece.block_x(j), piece.block_y(j)),
        decreases 4 - i,
    {
        let block = blocks[i];
        if block.x < 0 || block.x >= BOARD_WIDTH as i32 {
            return false;
        }
        if block.y < 0 || block.y >= (BOARD_HEIGHT + BOARD_BUFFER_HEIGHT) as i32 {
            return false;
        }
        if (block.y as usize) < BOARD_HEIGHT {
            if board.cells[block.y as usize][block.x as usize].is_some() {
                return false;
            }
        }
        i += 1;
    }
    true
}

/// A fitting piece has its origin at most three rows below the floor.
pub proof fn lemma_fits_origin_above_floor(piece: ActivePiece, board: Board)
    requires
        fits(piece, board),
    ensures
        piece.grid_position.y >= -3,
        -3 <= piece.grid_position.x < BOARD_WIDTH,
{
    lemma_shape_within_box(piece.kind, piece.rotation);
    assert(cell_free(board, piece.block_x(0), piece.block_y(0)));
}

/// `piece` dropped straight down by `d` rows.
pub open spec fn dropped(piece: ActivePiece, d: int) -> ActivePiece {
    piece.shifted(0, -d)
}

/// `rest` is where `piece` ends up when pushed down one row at a time as long
/// as the next row fits: every intermediate drop fits, and one more row does not.
pub open spec fn is_resting_drop(piece: ActivePiece, board: Board, rest: ActivePiece) -> bool {
    let d = piece.grid_position.y - rest.grid_position.y;
    &&& rest == dropped(piece, d)
    &&& d >= 0
    &&& forall|k: int| 1 <= k <= d ==> #[trigger] fits(dropped(piece, k), board)
    &&& !fits(dropped(rest, 1), board)
}

/// Returns the piece moved straight down to its resting position. Does NOT
/// lock: the caller triggers locking as a separate step.
pub fn hard_drop(piece: &ActivePiece, board: &Board) -> (r: ActivePiece)
    requires
        has_block_room(piece.grid_position),
        piece.grid_position.y > i32::MIN,
    ensures
        is_resting_drop(*piece, *board, r),
        r.kind == piece.kind,
        r.rotation == piece.rotation,
        r.grid_position.x == piece.grid_position.x,
        fits(*piece, *board) ==> fits(r, *board),
{
    let mut current = *piece;
    loop
        invariant
            current == dropped(*piece, piece.grid_position.y - current.grid_position.y),
            current.grid_position.y <= piece.grid_position.y,
            current.grid_position.y > i32::MIN,
            has_block_room(current.grid_position),
            forall|k: int|
                1 <= k <= piece.grid_position.y - current.grid_position.y ==> #[trigger] fits(
                    dropped(*piece, k),
                    *board,
                ),
            fits(*piece, *board) ==> fits(current, *board),
        decreases current.grid_position.y - i32::MIN,
    {
        let next = current.moved_down();
        if !can_place(&next, board) {
            assert(next == dropped(current, 1));
            return current;
        }
        proof {
            lemma_fits_origin_above_floor(next, *board);
            let d = piece.grid_position.y - next.grid_position.y;
            assert(next == dropped(*piece, d));
        }
        current = next;
    }
}

/// The resting position of a drop is unique, and dropping a piece that is
/// already resting leaves it where it is (a second hard drop is a no-op).
pub proof fn lemma_resting_drop_unique_and_idempotent(
    piece: ActivePiece,
    board: Board,
    r1: ActivePiece,
    r2: ActivePiece,
)
    requires
        is_resting_drop(piece, board, r1),
        is_resting_drop(piece, board, r2),
    ensures
        r1 == r2,
        is_resting_drop(r1, board, r1),
{
    let d1 = piece.grid_position.y - r1.grid_position.y;
    let d2 = piece.grid_position.y - r2.grid_position.y;
    if d1 < d2 {
        assert(fits(dropped(piece, d1 + 1), board));
        assert(dropped(r1, 1) == dropped(piece, d1 + 1));
    } else if d2 < d1 {
        assert(fits(dropped(piece, d2 + 1), board));
        assert(dropped(r2, 1) == dropped(piece, d2 + 1));
    }
    assert(dropped(r1, 0) == r1);
}

} // verus!
