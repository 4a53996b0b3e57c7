//! Player-driven moves of the active piece: horizontal shifts, soft drop
//! steps, and the hard drop that locks in place.
use vstd::prelude::*;

use crate::board::active_piece::{ActivePiece, has_block_room};
use crate::board::collision::{can_place, dropped, fits, is_resting_drop, lemma_fits_origin_above_floor};
use crate::board::gravity::{LockResolution, lock_resolved, resolve_lock, try_step_down};
use crate::board::{Board, hard_drop};
use crate::board::rotation::{lemma_rotation_outcome_near, rotation_outcome};
use crate::board::try_rotate;
use crate::coord::Coord;
use crate::game::GameRules;
use crate::pieces::{RotationDirection, SevenBag, WallKickMode};

verus! {

/// `piece` moved `k` columns to the right (or to the left when `right` is false).
pub open spec fn nudged(piece: ActivePiece, right: bool, k: int) -> ActivePiece {
    if right {
        piece.shifted(k, 0)
    } else {
        piece.shifted(-k, 0)
    }
}

/// `after` is `piece` shifted `d` columns rightwards (or leftwards), every
/// intermediate column fits, and the shift stopped either after `n` columns
/// or before the first column that does not fit.
pub open spec fn shift_stopped_at(
    piece: ActivePiece,
    board: Board,
    right: bool,
    n: int,
    after: ActivePiece,
    d: int,
) -> bool {
    &&& 0 <= d <= n
    &&& after == nudged(piece, right, d)
    &&& forall|k: int| 1 <= k <= d ==> #[trigger] fits(nudged(piece, right, k), board)
    &&& (d == n || !fits(nudged(piece, right, d + 1), board))
}

/// `after` is `piece` shifted column by column rightwards (or leftwards), at
/// most `n` times, stopping before the first column that does not fit.
pub open spec fn shifted_until_blocked(
    piece: ActivePiece,
    board: Board,
    right: bool,
    n: int,
    after: ActivePiece,
) -> bool {
    exists|d: int| #[trigger] shift_stopped_at(piece, board, right, n, after, d)
}

/// `after` is `piece` dropped `d` rows, every intermediate row fits, and the
/// drop stopped either after `n` rows or before the first row that does not fit.
pub open spec fn drop_stopped_at(piece: ActivePiece, board: Board, n: int, after: ActivePiece, d: int) -> bool {
    &&& 0 <= d <= n
    &&& after == dropped(piece, d)
    &&& forall|k: int| 1 <= k <= d ==> #[trigger] fits(dropped(piece, k), board)
    &&& (d == n || !fits(dropped(piece, d + 1), board))
}

/// Shifts the piece horizontally by up to `|shifts|` columns (right when
/// positive, left when negative), one column at a time, stopping at the
/// first column that does not fit.
pub fn shift_horizontally(piece: &mut ActivePiece, board: &Board, shifts: i32)
    requires
        shifts > i32::MIN,
        has_block_room(old(piece).grid_position),
        i32::MIN < old(piece).grid_position.x <= i32::MAX - 4,
    ensures
        shifts == 0 ==> *final(piece) == *old(piece),
        shifts > 0 ==> shifted_until_blocked(*old(piece), *board, true, shifts as int, *final(piece)),
        shifts < 0 ==> shifted_until_blocked(*old(piece), *board, false, -shifts as int, *final(piece)),
        fits(*old(piece), *board) ==> fits(*final(piece), *board),
{
    if shifts == 0 {
        return;
    }
    let direction: i32 = if shifts > 0 { 1 } else { -1 };
    let count: i32 = if shifts > 0 { shifts } else { -shifts };
    let ghost start = *piece;
    let ghost right = shifts > 0;
    let mut moved: i32 = 0;
    while moved < count
        invariant
            0 <= moved <= count,
            count == if shifts > 0 { shifts as int } else { -shifts as int },
            direction == if shifts > 0 { 1int } else { -1int },
            right == (shifts > 0),
            start == *old(piece),
            *piece == nudged(start, right, moved as int),
            piece.grid_position.x == if right { start.grid_position.x + moved } else { start.grid_position.x - moved },
            has_block_room(piece.grid_position),
            i32::MIN < piece.grid_position.x <= i32::MAX - 4,
            forall|k: int| 1 <= k <= moved ==> #[trigger] fits(nudged(start, right, k), *board),
        decreases count - moved,
    {
        let candidate = piece.moved_by(Coord::new(direction, 0));
        assert(candidate == nudged(start, right, moved + 1));
        if !can_place(&candidate, board) {
            assert(shift_stopped_at(start, *board, right, count as int, *piece, moved as int));
            return;
        }
        proof {
            lemma_fits_origin_above_floor(candidate, *board);
        }
        *piece = candidate;
        moved += 1;
    }
    assert(shift_stopped_at(start, *board, right, count as int, *piece, moved as int));
}

/// Steps the piece down one row at a time, at most `steps` times, stopping
/// at the first row that does not fit. Never locks.
pub fn soft_drop(piece: &mut ActivePiece, board: &Board, steps: u32)
    requires
        has_block_room(old(piece).grid_position),
        old(piece).grid_position.y > i32::MIN,
    ensures
        exists|d: int| #[trigger] drop_stopped_at(*old(piece), *board, steps as int, *final(piece), d),
        fits(*old(piece), *board) ==> fits(*final(piece), *board),
{
    let ghost start = *piece;
    let mut t: u32 = 0;
    while t < steps
        invariant
            0 <= t <= steps,
            start == *old(piece),
            *piece == dropped(start, t as int),
            piece.grid_position.y == start.grid_position.y - t,
            has_block_room(piece.grid_position),
            piece.grid_position.y > i32::MIN,
            forall|k: int| 1 <= k <= t ==> #[trigger] fits(dropped(start, k), *board),
        decreases steps - t,
    {
        let ghost before = *piece;
        if !try_step_down(piece, board) {
            assert(dropped(before, 1) == dropped(start, t + 1));
            assert(drop_stopped_at(start, *board, steps as int, *piece, t as int));
            return;
        }
        proof {
            lemma_fits_origin_above_floor(*piece, *board);
            assert(dropped(before, 1) == dropped(start, t + 1));
        }
        t += 1;
    }
    assert(drop_stopped_at(start, *board, steps as int, *piece, t as int));
}

/// Hard drop: snaps the piece to its resting row and locks it there, through
/// the same resolution as a gravity lock. When the lock completes rows, they
/// stay on the board for the line-clear delay and the caller holds them as a
/// pending clear; otherwise the next piece is drawn at once.
pub fn hard_drop_and_lock(piece: &mut ActivePiece, board: &mut Board, bag: &mut SevenBag) -> (res: LockResolution)
    requires
        has_block_room(old(piece).grid_position),
        old(piece).grid_position.y > i32::MIN,
    ensures
        exists|landed: ActivePiece|
            #[trigger] is_resting_drop(*old(piece), *old(board), landed) && lock_resolved(
                landed,
                *old(board),
                *old(bag),
                res,
                *final(piece),
                *final(board),
                *final(bag),
            ),
{
    *piece = hard_drop(piece, board);
    let ghost landed = *piece;
    let res = resolve_lock(piece, board, bag);
    assert(is_resting_drop(*old(piece), *old(board), landed));
    res
}

/// The one-shot piece actions pressed this frame.
#[derive(Clone, Copy, Debug, Default)]
pub struct PiecePresses {
    pub rotate_counter_clockwise: bool,
    pub rotate_clockwise: bool,
    pub hard_drop: bool,
}

/// What the one-shot actions did.
#[derive(Clone, Copy, Debug)]
pub struct PressEffects {
    /// A counter-clockwise rotation changed the orientation.
    pub rotated_counter_clockwise: bool,
    /// A clockwise rotation changed the orientation.
    pub rotated_clockwise: bool,
    /// The hard drop ran and locked the piece, and this is how the lock
    /// resolved; the rest of the frame's input must be skipped.
    pub hard_drop: Option<LockResolution>,
}

/// Room for two rotations with kicks, a hard drop and a lock.
pub open spec fn has_press_room(c: Coord) -> bool {
    i32::MIN + 5 <= c.x <= i32::MAX - 7 && i32::MIN + 5 <= c.y <= i32::MAX - 7
}

/// Applies the one-shot actions in order: counter-clockwise rotation,
/// clockwise rotation (each fires on press only and is rejected when nothing
/// fits), then the hard drop when the rules allow it, which locks the piece
/// as a gravity lock does (rows it completes wait for the line-clear delay).
pub fn handle_presses(
    piece: &mut ActivePiece,
    board: &mut Board,
    bag: &mut SevenBag,
    rules: &GameRules,
    presses: PiecePresses,
) -> (effects: PressEffects)
    requires
        has_press_room(old(piece).grid_position),
    ensures
        exists|turned: ActivePiece|
            #[trigger] presses_turned(*old(piece), *old(board), rules.wall_kicks, presses, turned, effects) && if presses.hard_drop && rules.hard_drop_enabled {
                effects.hard_drop matches Some(res) && exists|landed: ActivePiece|
                    #[trigger] is_resting_drop(turned, *old(board), landed) && lock_resolved(
                        landed,
                        *old(board),
                        *old(bag),
                        res,
                        *final(piece),
                        *final(board),
                        *final(bag),
                    )
            } else {
                &&& effects.hard_drop is None
                &&& *final(piece) == turned
                &&& *final(board) == *old(board)
                &&& *final(bag) == *old(bag)
            },
{
    let mut effects = PressEffects {
        rotated_counter_clockwise: false,
        rotated_clockwise: false,
        hard_drop: None,
    };
    let ghost start = *piece;
    if presses.rotate_counter_clockwise {
        let rotated = try_rotate(*piece, RotationDirection::CounterClockwise, board, rules.wall_kicks);
        effects.rotated_counter_clockwise = rotated.rotation != piece.rotation;
        *piece = rotated;
    }
    let ghost mid = *piece;
    proof {
        lemma_rotation_outcome_near(start, RotationDirection::CounterClockwise, *board, rules.wall_kicks);
    }
    if presses.rotate_clockwise {
        let rotated = try_rotate(*piece, RotationDirection::Clockwise, board, rules.wall_kicks);
        effects.rotated_clockwise = rotated.rotation != piece.rotation;
        *piece = rotated;
    }
    proof {
        lemma_rotation_outcome_near(mid, RotationDirection::Clockwise, *board, rules.wall_kicks);
    }
    let ghost turned = *piece;
    assert(presses_turned(start, *board, rules.wall_kicks, presses, turned, effects));
    if rules.hard_drop_enabled && presses.hard_drop {
        let res = hard_drop_and_lock(piece, board, bag);
        effects.hard_drop = Some(res);
        assert(presses_turned(start, *old(board), rules.wall_kicks, presses, turned, effects));
    }
    effects
}

/// `turned` is `piece` after the pressed rotations, in order, and the
/// effects report which of them changed the orientation.
pub open spec fn presses_turned(
    piece: ActivePiece,
    board: Board,
    mode: WallKickMode,
    presses: PiecePresses,
    turned: ActivePiece,
    effects: PressEffects,
) -> bool {
    let mid = if presses.rotate_counter_clockwise {
        rotation_outcome(piece, RotationDirection::CounterClockwise, board, mode)
    } else {
        piece
    };
    let end = if presses.rotate_clockwise {
        rotation_outcome(mid, RotationDirection::Clockwise, board, mode)
    } else {
        mid
    };
    &&& turned == end
    &&& effects.rotated_counter_clockwise == (presses.rotate_counter_clockwise && mid.rotation != piece.rotation)
    &&& effects.rotated_clockwise == (presses.rotate_clockwise && end.rotation != mid.rotation)
}

} // verus!
