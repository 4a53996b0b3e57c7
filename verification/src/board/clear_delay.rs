//! Line-clear delay: the small window where the completed rows are held
//! on screen for the clear animation to play. When the delay is over, the
//! rows are collapsed and the next piece is drawn.
use vstd::prelude::*;

use crate::pieces::SevenBag;
use crate::pieces::bag::drew;

use super::active_piece::ActivePiece;
use super::grid::{BOARD_HEIGHT, Board};
use super::lines::{ClearedRows, clear_rows, collapsed, count_marked};
use super::lock::{LockOutcome, draw_next_piece, spawned, tops_out};

verus! {

/// Ends a pending line clear: collapses the held rows, spawns the next
/// piece, and reports the deferred lock outcome.
pub fn finish_line_clear(board: &mut Board, bag: &mut SevenBag, rows: &ClearedRows) -> (r: (
    ActivePiece,
    LockOutcome,
))
    ensures
        collapsed(*old(board), *rows, *final(board)),
        r.1.lines_cleared == count_marked(*rows, BOARD_HEIGHT as int),
        r.1.cleared_rows == *rows,
        drew(*old(bag), r.0.kind, *final(bag)),
        r.0 == spawned(r.0.kind),
        r.1.topped_out == tops_out(r.0, *final(board)),
{
    let lines_cleared = clear_rows(board, rows);
    let (next_piece, topped_out) = draw_next_piece(bag, board);
    (next_piece, LockOutcome { lines_cleared, cleared_rows: *rows, topped_out })
}

} // verus!
