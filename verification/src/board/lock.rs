//! Piece locking: stamp the active piece into the board, detect completed
//! lines, and draw the next piece from the bag.
//!
//! The cycle is split so the visual layer can hold the completed rows on
//! screen briefly:
//!
//! 1. [`stamp_lock`] writes the piece into the board and reports which rows
//!    just became full, without clearing them.
//! 2. [`draw_next_piece`] pulls the next tetromino from the bag and reports
//!    whether it tops out on spawn.
//!
//! [`finalize_lock`] wires both together (plus [`clear_full_lines`]) for
//! callers that don't want a clear-delay pause.
use vstd::prelude::*;

use crate::pieces::bag::drew;
use crate::pieces::tetromino::spec_spawn_origin;
use crate::pieces::{Rotation, SevenBag, TetrominoKind};

use super::active_piece::{ActivePiece, has_block_room};
use super::collision::{can_place, cell_free, dropped, fits};
use super::grid::{BOARD_HEIGHT, Board, spec_in_bounds};
use super::lines::{
    ClearedRows, MAX_CLEARED_ROWS, clear_full_lines, collapsed, count_marked, detect_full_rows,
    detected_slot,
};

verus! {

#[derive(Debug, Clone, Copy)]
pub struct LockOutcome {
    pub lines_cleared: u32,
    /// Row indices of the cleared lines in the pre-clear frame. `None`
    /// marks unused slots (up to 4 rows can be cleared at once).
    pub cleared_rows: ClearedRows,
    pub topped_out: bool,
}

impl Default for LockOutcome {
    fn default() -> (o: LockOutcome)
        ensures
            o.lines_cleared == 0,
            forall|i: int| 0 <= i < MAX_CLEARED_ROWS ==> o.cleared_rows[i] is None,
            !o.topped_out,
    {
        LockOutcome { lines_cleared: 0, cleared_rows: [None; MAX_CLEARED_ROWS], topped_out: false }
    }
}

/// Some block of `piece` is on cell `(x, y)`.
pub open spec fn covers(piece: ActivePiece, x: int, y: int) -> bool {
    exists|i: int| 0 <= i < 4 && #[trigger] piece.block_x(i) == x && piece.block_y(i) == y
}

/// `after` is `before` with every block of `piece` that lies inside the
/// playfield written as a cell of the piece's kind; blocks in the spawn
/// buffer are dropped.
pub open spec fn locked_into(before: Board, piece: ActivePiece, after: Board) -> bool {
    forall|x: int, y: int|
        #![trigger after.cell(x, y)]
        after.cell(x, y) == if spec_in_bounds(x, y) && covers(piece, x, y) {
            Some(piece.kind)
        } else {
            before.cell(x, y)
        }
}

/// A freshly spawned piece of `kind`: spawn origin, North orientation.
pub open spec fn spawned(kind: TetrominoKind) -> ActivePiece {
    ActivePiece { kind, grid_position: spec_spawn_origin(kind), rotation: Rotation::North }
}

/// The block-out rule: a spawned piece tops out when it does not fit, or
/// cannot descend one row into the visible playfield.
pub open spec fn tops_out(piece: ActivePiece, board: Board) -> bool {
    !fits(piece, board) || !fits(dropped(piece, 1), board)
}

/// Locking a fitting piece only fills empty cells: every cell the piece
/// covers inside the playfield was empty, and every cell that was occupied
/// keeps its content.
pub proof fn lemma_lock_fills_only_empty_cells(before: Board, piece: ActivePiece, after: Board)
    requires
        fits(piece, before),
        locked_into(before, piece, after),
    ensures
        forall|x: int, y: int|
            spec_in_bounds(x, y) && covers(piece, x, y) ==> (#[trigger] before.cell(x, y)) is None,
        forall|x: int, y: int|
            (#[trigger] before.cell(x, y)) is Some ==> after.cell(x, y) == before.cell(x, y),
{
    assert forall|x: int, y: int|
        spec_in_bounds(x, y) && covers(piece, x, y) implies (#[trigger] before.cell(x, y)) is None by {
        let i = choose|i: int| 0 <= i < 4 && #[trigger] piece.block_x(i) == x && piece.block_y(i) == y;
        assert(cell_free(before, piece.block_x(i), piece.block_y(i)));
    }
    assert forall|x: int, y: int|
        (#[trigger] before.cell(x, y)) is Some implies after.cell(x, y) == before.cell(x, y) by {
        assert(after.cell(x, y) == if spec_in_bounds(x, y) && covers(piece, x, y) {
            Some(piece.kind)
        } else {
            before.cell(x, y)
        });
        if spec_in_bounds(x, y) && covers(piece, x, y) {
            let i = choose|i: int| 0 <= i < 4 && #[trigger] piece.block_x(i) == x && piece.block_y(i) == y;
            assert(cell_free(before, piece.block_x(i), piece.block_y(i)));
        }
    }
}

/// Stamps every block of `piece` into `board`. Blocks above the visible
/// playfield (spawn buffer) are silently dropped: they are not cells.
pub fn lock_piece(board: &mut Board, piece: &ActivePiece)
    requires
        has_block_room(piece.grid_position),
    ensures
        locked_into(*old(board), *piece, *final(board)),
{
    let blocks = piece.blocks();
    let ghost before = *board;
    let mut i: usize = 0;
    while i < 4
        invariant
            0 <= i <= 4,
            forall|j: int|
                0 <= j < 4 ==> (#[trigger] blocks[j]).x == piece.block_x(j) && blocks[j].y
                    == piece.block_y(j),
            forall|x: int, y: int|
                #![trigger board.cell(x, y)]
                board.cell(x, y) == if spec_in_bounds(x, y) && exists|j: int|
                    0 <= j < i && #[trigger] piece.block_x(j) == x && piece.block_y(j) == y {
                    Some(piece.kind)
                } else {
                    before.cell(x, y)
                },
        decreases 4 - i,
    {
        let block = blocks[i];
        if Board::in_bounds(block.x, block.y) {
            board.set(block.x, block.y, piece.kind);
        }
        proof {
            assert forall|x: int, y: int|
                #![trigger board.cell(x, y)]
                board.cell(x, y) == if spec_in_bounds(x, y) && exists|j: int|
                    0 <= j < i + 1 && #[trigger] piece.block_x(j) == x && piece.block_y(j) == y {
                    Some(piece.kind)
                } else {
                    before.cell(x, y)
                } by {
                if x == piece.block_x(i as int) && y == piece.block_y(i as int) {
                    assert(piece.block_x(i as int) == x && piece.block_y(i as int) == y);
                }
            }
        }
        i += 1;
    }
}

/// Writes the piece into the board and returns the rows that just became
/// full, *without* clearing them. The caller decides when to actually
/// collapse the stack (immediately, or after a short delay for the
/// clear-line animation).
pub fn stamp_lock(board: &mut Board, piece: &ActivePiece) -> (rows: ClearedRows)
    requires
        has_block_room(piece.grid_position),
    ensures
        locked_into(*old(board), *piece, *final(board)),
        forall|i: int| 0 <= i < MAX_CLEARED_ROWS ==> rows[i] == detected_slot(*final(board), i),
{
    lock_piece(board, piece);
    detect_full_rows(board)
}

/// Pulls the next tetromino from the bag. Returns the spawned piece and
/// whether it tops out: block-out is checked by attempting to descend one
/// row into the visible playfield, since bare spawn always succeeds in
/// the buffer.
pub fn draw_next_piece(bag: &mut SevenBag, board: &Board) -> (r: (ActivePiece, bool))
    ensures
        drew(*old(bag), r.0.kind, *final(bag)),
        r.0 == spawned(r.0.kind),
        r.1 == tops_out(r.0, *board),
{
    let kind = bag.next();
    let next_piece = ActivePiece::new(kind, kind.spawn_origin());
    let topped_out = !can_place(&next_piece, board) || !can_place(&next_piece.moved_down(), board);
    (next_piece, topped_out)
}

/// The board after stamping the piece and detecting its full rows, before
/// they are collapsed.
pub open spec fn lock_stage(before: Board, piece: ActivePiece, outcome: LockOutcome, mid: Board) -> bool {
    &&& locked_into(before, piece, mid)
    &&& forall|i: int|
        0 <= i < MAX_CLEARED_ROWS ==> outcome.cleared_rows[i] == detected_slot(mid, i)
}

/// One complete lock cycle: `piece_before` is stamped into `board_before`,
/// the completed rows are reported and collapsed into `board_after`, and
/// `piece_after` is the next piece drawn from the bag, spawned at its
/// origin; the outcome says whether it tops out.
pub open spec fn lock_cycle(
    piece_before: ActivePiece,
    board_before: Board,
    bag_before: SevenBag,
    outcome: LockOutcome,
    piece_after: ActivePiece,
    board_after: Board,
    bag_after: SevenBag,
) -> bool {
    &&& exists|mid: Board|
        #[trigger] lock_stage(board_before, piece_before, outcome, mid) && collapsed(
            mid,
            outcome.cleared_rows,
            board_after,
        )
    &&& outcome.lines_cleared == count_marked(outcome.cleared_rows, BOARD_HEIGHT as int)
    &&& drew(bag_before, piece_after.kind, bag_after)
    &&& piece_after == spawned(piece_after.kind)
    &&& outcome.topped_out == tops_out(piece_after, board_after)
}

/// Atomic lock cycle for callers that don't want to defer the clear: lock
/// the piece, clear the completed rows, and replace the piece with the next
/// one from the bag.
pub fn finalize_lock(piece: &mut ActivePiece, board: &mut Board, bag: &mut SevenBag) -> (outcome:
    LockOutcome)
    requires
        has_block_room(old(piece).grid_position),
    ensures
        lock_cycle(
            *old(piece),
            *old(board),
            *old(bag),
            outcome,
            *final(piece),
            *final(board),
            *final(bag),
        ),
{
    let cleared_rows = stamp_lock(board, piece);
    let ghost mid = *board;
    let lines_cleared = clear_full_lines(board);
    proof {
        let rows = choose|rows: ClearedRows|
            (forall|i: int| 0 <= i < MAX_CLEARED_ROWS ==> rows[i] == detected_slot(mid, i))
                && lines_cleared == count_marked(rows, BOARD_HEIGHT as int) && collapsed(
                mid,
                rows,
                *board,
            );
        assert(rows@ =~= cleared_rows@);
        assert(rows == cleared_rows);
    }
    let (next_piece, topped_out) = draw_next_piece(bag, board);
    *piece = next_piece;
    let outcome = LockOutcome { lines_cleared, cleared_rows, topped_out };
    assert(lock_stage(*old(board), *old(piece), outcome, mid));
    outcome
}

/// The block-out rule: a spawned piece that fits where it spawns and one row
/// lower does not top out, whatever fills the rows further down; one that
/// does not fit at either place tops out.
pub proof fn lemma_block_out_rule(piece: ActivePiece, board: Board)
    ensures
        fits(piece, board) && fits(dropped(piece, 1), board) ==> !tops_out(piece, board),
        !fits(piece, board) || !fits(dropped(piece, 1), board) ==> tops_out(piece, board),
{
}

/// Topping out looks only at the cells the piece covers and the cells one
/// row below them: two boards that agree there give the same answer.
pub proof fn lemma_block_out_reads_only_two_rows(piece: ActivePiece, b1: Board, b2: Board)
    requires
        piece.grid_position.y > i32::MIN,
        forall|i: int, d: int|
            0 <= i < 4 && 0 <= d <= 1 ==> b1.cell(piece.block_x(i), piece.block_y(i) - d)
                == #[trigger] b2.cell(piece.block_x(i), piece.block_y(i) - d),
    ensures
        tops_out(piece, b1) == tops_out(piece, b2),
{
    let low = dropped(piece, 1);
    assert forall|i: int| 0 <= i < 4 implies cell_free(b1, #[trigger] piece.block_x(i), piece.block_y(i))
        == cell_free(b2, piece.block_x(i), piece.block_y(i)) by {
        assert(b1.cell(piece.block_x(i), piece.block_y(i) - 0) == b2.cell(piece.block_x(i), piece.block_y(i) - 0));
    }
    assert forall|i: int| 0 <= i < 4 implies cell_free(b1, #[trigger] low.block_x(i), low.block_y(i))
        == cell_free(b2, low.block_x(i), low.block_y(i)) by {
        assert(b1.cell(piece.block_x(i), piece.block_y(i) - 1) == b2.cell(piece.block_x(i), piece.block_y(i) - 1));
        assert(low.block_x(i) == piece.block_x(i));
        assert(low.block_y(i) == piece.block_y(i) - 1);
    }
    assert(fits(piece, b1) == fits(piece, b2));
    assert(fits(low, b1) == fits(low, b2));
}

} // verus!
