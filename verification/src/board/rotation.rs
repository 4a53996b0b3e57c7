//! Rotation against a board, with optional SRS wall kicks.
use vstd::prelude::*;

use crate::coord::Coord;
use crate::pieces::rotation::spec_rotated;
use crate::pieces::wall_kicks::{kick_table, lemma_kick_offsets_small};
use crate::pieces::{Rotation, RotationDirection, TetrominoKind, WallKickMode, srs_wall_kicks};

use super::active_piece::{ActivePiece, has_block_room};
use super::collision::{can_place, fits};
use super::grid::Board;

verus! {

/// Room for any kick (at most 2 cells each way) followed by the block
/// offsets (at most 3 cells up and right) without leaving `i32`.
pub open spec fn has_kick_room(c: Coord) -> bool {
    i32::MIN + 2 <= c.x <= i32::MAX - 5 && i32::MIN + 2 <= c.y <= i32::MAX - 5
}

/// The first candidate `rotated + kicks[j]` (for `j >= i`, in table order)
/// that fits, if any.
pub open spec fn first_fitting_kick(
    rotated: ActivePiece,
    board: Board,
    kicks: Seq<Coord>,
    i: int,
) -> Option<ActivePiece>
    decreases kicks.len() - i,
{
    if i < 0 || i >= kicks.len() {
        None
    } else if fits(rotated.shifted(kicks[i].x as int, kicks[i].y as int), board) {
        Some(rotated.shifted(kicks[i].x as int, kicks[i].y as int))
    } else {
        first_fitting_kick(rotated, board, kicks, i + 1)
    }
}

/// The outcome of turning `piece` in `direction`: the in-place turn if it
/// fits; otherwise, when kicks are on, the first kicked position that fits;
/// otherwise the piece unchanged.
pub open spec fn rotation_outcome(
    piece: ActivePiece,
    direction: RotationDirection,
    board: Board,
    mode: WallKickMode,
) -> ActivePiece {
    let rotated = ActivePiece { rotation: spec_rotated(piece.rotation, direction), ..piece };
    if fits(rotated, board) {
        rotated
    } else if mode == WallKickMode::Off {
        piece
    } else {
        match first_fitting_kick(
            rotated,
            board,
            kick_table(piece.kind, piece.rotation, rotated.rotation),
            0,
        ) {
            Some(kicked) => kicked,
            None => piece,
        }
    }
}

/// Returns the piece after rotation. If no valid position is found, returns
/// the piece unchanged.
///
/// Order of attempts:
/// 1. In-place rotation.
/// 2. If kicks are enabled, walk the SRS kick table for the transition.
pub fn try_rotate(
    piece: ActivePiece,
    direction: RotationDirection,
    board: &Board,
    mode: WallKickMode,
) -> (r: ActivePiece)
    requires
        has_kick_room(piece.grid_position),
    ensures
        r == rotation_outcome(piece, direction, *board, mode),
        fits(piece, *board) ==> fits(r, *board),
{
    proof {
        if fits(piece, *board) {
            lemma_rotation_keeps_fit(piece, direction, *board, mode);
        }
    }
    let rotated = piece.rotated(direction);
    if can_place(&rotated, board) {
        return rotated;
    }
    if mode == WallKickMode::Off {
        return piece;
    }
    let kicks = srs_wall_kicks(piece.kind, piece.rotation, rotated.rotation);
    proof {
        lemma_kick_offsets_small(piece.kind, piece.rotation, rotated.rotation);
    }
    let mut i: usize = 0;
    while i < kicks.len()
        invariant
            0 <= i <= kicks.len(),
            kicks@ == kick_table(piece.kind, piece.rotation, rotated.rotation),
            has_kick_room(rotated.grid_position),
            mode != WallKickMode::Off,
            !fits(rotated, *board),
            rotated == (ActivePiece { rotation: spec_rotated(piece.rotation, direction), ..piece }),
            forall|j: int|
                0 <= j < kicks.len() ==> -2 <= #[trigger] kicks@[j].x <= 2 && -2 <= kicks@[j].y
                    <= 2,
            first_fitting_kick(rotated, *board, kicks@, 0) == first_fitting_kick(
                rotated,
                *board,
                kicks@,
                i as int,
            ),
        decreases kicks.len() - i,
    {
        let offset = kicks[i];
        let candidate = rotated.moved_by(offset);
        if can_place(&candidate, board) {
            assert(offset == kicks@[i as int]);
            assert(first_fitting_kick(rotated, *board, kicks@, i as int) == Some(candidate));
            return candidate;
        }
        i += 1;
    }
    piece
}

/// A piece that fits still fits after any rotation attempt: a turn either
/// lands on a fitting position or leaves the piece where it was.
pub proof fn lemma_rotation_keeps_fit(
    piece: ActivePiece,
    direction: RotationDirection,
    board: Board,
    mode: WallKickMode,
)
    requires
        fits(piece, board),
    ensures
        fits(rotation_outcome(piece, direction, board, mode), board),
        rotation_outcome(piece, direction, board, mode).kind == piece.kind,
{
    let rotated = ActivePiece { rotation: spec_rotated(piece.rotation, direction), ..piece };
    let kicks = kick_table(piece.kind, piece.rotation, rotated.rotation);
    lemma_first_fitting_kick_fits(rotated, board, kicks, 0);
}

/// A rotation attempt moves the piece by at most two cells along each axis.
pub proof fn lemma_rotation_outcome_near(
    piece: ActivePiece,
    direction: RotationDirection,
    board: Board,
    mode: WallKickMode,
)
    requires
        has_kick_room(piece.grid_position),
    ensures
        ({
            let r = rotation_outcome(piece, direction, board, mode);
            &&& piece.grid_position.x - 2 <= r.grid_position.x <= piece.grid_position.x + 2
            &&& piece.grid_position.y - 2 <= r.grid_position.y <= piece.grid_position.y + 2
            &&& r.kind == piece.kind
        }),
{
    let rotated = ActivePiece { rotation: spec_rotated(piece.rotation, direction), ..piece };
    let kicks = kick_table(piece.kind, piece.rotation, rotated.rotation);
    lemma_kick_offsets_small(piece.kind, piece.rotation, rotated.rotation);
    lemma_first_fitting_kick_near(rotated, board, kicks, 0);
}

proof fn lemma_first_fitting_kick_near(
    rotated: ActivePiece,
    board: Board,
    kicks: Seq<Coord>,
    i: int,
)
    requires
        has_kick_room(rotated.grid_position),
        forall|j: int| 0 <= j < kicks.len() ==> -2 <= #[trigger] kicks[j].x <= 2 && -2 <= kicks[j].y <= 2,
    ensures
        first_fitting_kick(rotated, board, kicks, i) matches Some(p) ==> rotated.grid_position.x - 2
            <= p.grid_position.x <= rotated.grid_position.x + 2 && rotated.grid_position.y - 2
            <= p.grid_position.y <= rotated.grid_position.y + 2 && p.kind == rotated.kind,
    decreases kicks.len() - i,
{
    if 0 <= i < kicks.len() {
        lemma_first_fitting_kick_near(rotated, board, kicks, i + 1);
    }
}

proof fn lemma_first_fitting_kick_fits(
    rotated: ActivePiece,
    board: Board,
    kicks: Seq<Coord>,
    i: int,
)
    ensures
        first_fitting_kick(rotated, board, kicks, i) matches Some(p) ==> fits(p, board) && p.kind
            == rotated.kind && p.rotation == rotated.rotation,
    decreases kicks.len() - i,
{
    if 0 <= i < kicks.len() {
        lemma_first_fitting_kick_fits(rotated, board, kicks, i + 1);
    }
}

/// `piece` turned in place in `direction`.
pub open spec fn turned_in_place(piece: ActivePiece, direction: RotationDirection) -> ActivePiece {
    ActivePiece { rotation: spec_rotated(piece.rotation, direction), ..piece }
}

/// When the in-place turn is blocked, SRS first tries the turn one column
/// over: for J, L, S, T and Z turning out of West it tries one column to the
/// left (so a piece standing against the right wall steps away from it), out
/// of East one column to the right, into East one column to the left, and
/// into West one column to the right.
pub proof fn lemma_jlstz_first_kick_is_one_column_over(
    piece: ActivePiece,
    direction: RotationDirection,
    board: Board,
    mode: WallKickMode,
)
    requires
        piece.kind != TetrominoKind::O,
        piece.kind != TetrominoKind::I,
        mode != WallKickMode::Off,
        !fits(turned_in_place(piece, direction), board),
    ensures
        ({
            let t = turned_in_place(piece, direction);
            let dx: int = if piece.rotation == Rotation::West || t.rotation == Rotation::East {
                -1
            } else {
                1
            };
            fits(t.shifted(dx, 0), board) ==> rotation_outcome(piece, direction, board, mode)
                == t.shifted(dx, 0)
        }),
{
    let t = turned_in_place(piece, direction);
    let kicks = kick_table(piece.kind, piece.rotation, t.rotation);
    assert(t.shifted(0, 0) == t);
    match direction {
        RotationDirection::Clockwise => {},
        RotationDirection::CounterClockwise => {},
    }
    assert(kicks.len() == 5);
    assert(kicks[0] == Coord { x: 0, y: 0 });
    assert(first_fitting_kick(t, board, kicks, 0) == first_fitting_kick(t, board, kicks, 1));
}

} // verus!
