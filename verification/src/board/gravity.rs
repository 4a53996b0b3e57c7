//! Discrete gravity: on each tick, attempt to move the active piece down by
//! one row. When the move would collide, the piece is locked into the board
//! and the next piece is drawn in place.
use vstd::prelude::*;

use std::time::Duration;

use crate::pieces::SevenBag;
use crate::pieces::bag::drew;

use super::active_piece::{ActivePiece, has_block_room};
use super::collision::{can_place, dropped, fits};
use super::grid::Board;
use super::lines::{ClearedRows, MAX_CLEARED_ROWS, detected_slot};
use super::lock::{
    LockOutcome, draw_next_piece, locked_into, spawned, stamp_lock, tops_out,
};

verus! {

/// Level-indexed gravity interval, in milliseconds. Roughly NES-style: level
/// 1 is 800 ms, halving every ~3 levels until 20+. Index 0 is level 1.
pub open spec fn gravity_table() -> Seq<u64> {
    seq![
        800, 720, 630, 550, 470, 380, 300, 220, 130, 100,
        80, 80, 80, 70, 70, 70, 50, 50, 50, 30,
    ]
}

/// The gravity interval in milliseconds for a 1-based level: level 0 counts
/// as level 1 and levels past the table use its last (fastest) entry.
pub open spec fn spec_gravity_interval_ms(level: u32) -> u64 {
    let idx = if level == 0 { 0 } else { level - 1 };
    let idx = if idx > 19 { 19 } else { idx };
    gravity_table()[idx]
}

/// What `Duration::from_millis` returns for `ms`.
pub uninterp spec fn duration_from_millis(ms: u64) -> Duration;

/// Calls `std::time::Duration::from_millis`. Its result is the `Duration` of
/// `ms` milliseconds; the contract names it and states nothing else.
#[verifier::external_body]
fn millis(ms: u64) -> (d: Duration)
    ensures
        d == duration_from_millis(ms),
{
    Duration::from_millis(ms)
}

/// The gravity interval, in milliseconds, for a 1-based level.
fn gravity_interval_ms(level: u32) -> (ms: u64)
    ensures
        ms == spec_gravity_interval_ms(level),
{
    let table: [u64; 20] = [
        800, 720, 630, 550, 470, 380, 300, 220, 130, 100,
        80, 80, 80, 70, 70, 70, 50, 50, 50, 30,
    ];
    assert(table@ =~= gravity_table());
    let idx: u32 = level.saturating_sub(1);
    let idx: usize = if idx > 19 { 19 } else { idx as usize };
    table[idx]
}

/// Returns the gravity interval for a 1-based level. Level 0 is treated
/// as level 1; levels past 20 clamp to the table's fastest entry.
pub fn gravity_interval_for(level: u32) -> (d: Duration)
    ensures
        d == duration_from_millis(spec_gravity_interval_ms(level)),
{
    millis(gravity_interval_ms(level))
}

/// Gravity never slows down as the level rises.
pub proof fn lemma_gravity_interval_non_increasing(a: u32, b: u32)
    requires
        a <= b,
    ensures
        spec_gravity_interval_ms(b) <= spec_gravity_interval_ms(a),
{
    let t = gravity_table();
    assert forall|i: int, j: int| 0 <= i <= j < 20 implies t[j] <= t[i] by {
        assert(t[0] == 800 && t[1] == 720 && t[2] == 630 && t[3] == 550 && t[4] == 470);
        assert(t[5] == 380 && t[6] == 300 && t[7] == 220 && t[8] == 130 && t[9] == 100);
        assert(t[10] == 80 && t[11] == 80 && t[12] == 80 && t[13] == 70 && t[14] == 70);
        assert(t[15] == 70 && t[16] == 50 && t[17] == 50 && t[18] == 50 && t[19] == 30);
    }
}

/// The gravity interval stays between 30 ms and 800 ms, is 30 ms from level
/// 20 on, and level 0 gets the interval of level 1: as `Duration`s, levels 0
/// and 1 get the same interval, and every level from 20 on gets 30 ms.
pub proof fn lemma_gravity_interval_bounds(level: u32)
    ensures
        30 <= spec_gravity_interval_ms(level) <= 800,
        level >= 20 ==> spec_gravity_interval_ms(level) == 30,
        duration_from_millis(spec_gravity_interval_ms(0)) == duration_from_millis(
            spec_gravity_interval_ms(1),
        ),
        level >= 20 ==> duration_from_millis(spec_gravity_interval_ms(level))
            == duration_from_millis(30),
{
    let t = gravity_table();
    assert(t[0] == 800 && t[1] == 720 && t[2] == 630 && t[3] == 550 && t[4] == 470);
    assert(t[5] == 380 && t[6] == 300 && t[7] == 220 && t[8] == 130 && t[9] == 100);
    assert(t[10] == 80 && t[11] == 80 && t[12] == 80 && t[13] == 70 && t[14] == 70);
    assert(t[15] == 70 && t[16] == 50 && t[17] == 50 && t[18] == 50 && t[19] == 30);
}

/// Attempts to move the piece down by one row. Returns `true` and mutates
/// the piece if the new position is valid; otherwise leaves it untouched.
pub fn try_step_down(piece: &mut ActivePiece, board: &Board) -> (moved: bool)
    requires
        has_block_room(old(piece).grid_position),
        old(piece).grid_position.y > i32::MIN,
    ensures
        moved == fits(dropped(*old(piece), 1), *board),
        *final(piece) == if moved {
            dropped(*old(piece), 1)
        } else {
            *old(piece)
        },
        fits(*old(piece), *board) ==> fits(*final(piece), *board),
{
    let candidate = piece.moved_down();
    if !can_place(&candidate, board) {
        return false;
    }
    *piece = candidate;
    true
}

/// How a lock resolved.
#[derive(Debug, Clone, Copy)]
pub enum LockResolution {
    /// The lock completed rows: the piece is gone, and the rows wait on
    /// screen for the clear delay before they are collapsed.
    PendingClear(ClearedRows),
    /// No row was completed: the next piece is already in play.
    Locked(LockOutcome),
}

/// At least one detected slot names a row.
pub open spec fn any_row_detected(board: Board) -> bool {
    exists|i: int| 0 <= i < MAX_CLEARED_ROWS && (#[trigger] detected_slot(board, i)) is Some
}

/// What locking `piece` into `board_before` with `bag_before` leads to:
/// `board_after` holds the stamped piece; if rows were completed, the
/// resolution hands them on and the piece and bag are untouched; otherwise
/// the next piece is drawn and the outcome reports no cleared line.
pub open spec fn lock_resolved(
    piece_before: ActivePiece,
    board_before: Board,
    bag_before: SevenBag,
    res: LockResolution,
    piece_after: ActivePiece,
    board_after: Board,
    bag_after: SevenBag,
) -> bool {
    &&& locked_into(board_before, piece_before, board_after)
    &&& match res {
        LockResolution::PendingClear(rows) => {
            &&& any_row_detected(board_after)
            &&& forall|i: int|
                0 <= i < MAX_CLEARED_ROWS ==> rows[i] == detected_slot(board_after, i)
            &&& piece_after == piece_before
            &&& bag_after == bag_before
        },
        LockResolution::Locked(outcome) => {
            &&& !any_row_detected(board_after)
            &&& outcome.lines_cleared == 0
            &&& forall|i: int| 0 <= i < MAX_CLEARED_ROWS ==> outcome.cleared_rows[i] is None
            &&& drew(bag_before, piece_after.kind, bag_after)
            &&& piece_after == spawned(piece_after.kind)
            &&& outcome.topped_out == tops_out(piece_after, board_after)
        },
    }
}

/// Locks the piece and either finishes immediately (no completed rows) or
/// hands control off to the line-clear delay (rows detected). Gravity and the
/// hard drop both lock through it.
pub fn resolve_lock(piece: &mut ActivePiece, board: &mut Board, bag: &mut SevenBag) -> (res:
    LockResolution)
    requires
        has_block_room(old(piece).grid_position),
    ensures
        lock_resolved(
            *old(piece),
            *old(board),
            *old(bag),
            res,
            *final(piece),
            *final(board),
            *final(bag),
        ),
{
    let cleared_rows = stamp_lock(board, piece);
    let mut any = false;
    let mut i: usize = 0;
    while i < MAX_CLEARED_ROWS
        invariant
            0 <= i <= MAX_CLEARED_ROWS,
            any == exists|j: int| 0 <= j < i && (#[trigger] cleared_rows[j]) is Some,
        decreases MAX_CLEARED_ROWS - i,
    {
        if cleared_rows[i].is_some() {
            any = true;
        }
        i += 1;
    }
    if any {
        return LockResolution::PendingClear(cleared_rows);
    }
    let (next_piece, topped_out) = draw_next_piece(bag, board);
    *piece = next_piece;
    LockResolution::Locked(LockOutcome { lines_cleared: 0, cleared_rows, topped_out })
}

/// Gravity moved `start` down `d` rows (each fitting), the next row did not
/// fit, and locking there resolved as `r`.
pub open spec fn gravity_locked_after(
    start: ActivePiece,
    board_before: Board,
    bag_before: SevenBag,
    ticks: u32,
    d: int,
    r: LockResolution,
    piece_after: ActivePiece,
    board_after: Board,
    bag_after: SevenBag,
) -> bool {
    &&& 0 <= d < ticks
    &&& forall|k: int| 1 <= k <= d ==> #[trigger] fits(dropped(start, k), board_before)
    &&& !fits(dropped(start, d + 1), board_before)
    &&& lock_resolved(
        dropped(start, d),
        board_before,
        bag_before,
        r,
        piece_after,
        board_after,
        bag_after,
    )
}

/// Applies `ticks` gravity steps: the piece moves down one row per tick
/// until a step does not fit, at which point it is locked and the remaining
/// ticks are dropped. Returns how the lock resolved, if one happened.
pub fn apply_gravity_ticks(
    piece: &mut ActivePiece,
    board: &mut Board,
    bag: &mut SevenBag,
    ticks: u32,
) -> (res: Option<LockResolution>)
    requires
        has_block_room(old(piece).grid_position),
        old(piece).grid_position.y > i32::MIN,
    ensures
        match res {
            None => {
                &&& forall|k: int| 1 <= k <= ticks ==> #[trigger] fits(dropped(*old(piece), k), *old(board))
                &&& *final(piece) == dropped(*old(piece), ticks as int)
                &&& *final(board) == *old(board)
                &&& *final(bag) == *old(bag)
            },
            Some(r) => exists|d: int|
                #[trigger] gravity_locked_after(
                    *old(piece),
                    *old(board),
                    *old(bag),
                    ticks,
                    d,
                    r,
                    *final(piece),
                    *final(board),
                    *final(bag),
                ),
        },
{
    let ghost start = *piece;
    let mut t: u32 = 0;
    while t < ticks
        invariant
            0 <= t <= ticks,
            start == *old(piece),
            *piece == dropped(start, t as int),
            piece.grid_position.y == start.grid_position.y - t,
            has_block_room(piece.grid_position),
            piece.grid_position.y > i32::MIN,
            forall|k: int| 1 <= k <= t ==> #[trigger] fits(dropped(start, k), *board),
            *board == *old(board),
            *bag == *old(bag),
        decreases ticks - t,
    {
        let ghost before = *piece;
        if !try_step_down(piece, board) {
            assert(dropped(before, 1) == dropped(start, t + 1));
            let r = resolve_lock(piece, board, bag);
            assert(start == *old(piece));
            assert(gravity_locked_after(
                *old(piece),
                *old(board),
                *old(bag),
                ticks,
                t as int,
                r,
                *piece,
                *board,
                *bag,
            ));
            return Some(r);
        }
        proof {
            super::collision::lemma_fits_origin_above_floor(*piece, *board);
            assert(dropped(before, 1) == dropped(start, t + 1));
        }
        t += 1;
    }
    None
}

} // verus!
