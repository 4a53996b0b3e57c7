//! Official SRS wall kick tables.
//!
//! Canonical SRS data is documented in y-down (screen coordinates with row 0
//! at the top). This board uses y-up (y = 0 at the bottom of the board), so
//! the y component of every offset is negated here.
//!
//! - J / L / S / T / Z share a single table.
//! - I has its own table.
//! - O has no meaningful kicks.
//!
//! SRS only defines kicks for 90 degree transitions (N<->E, E<->S, S<->W,
//! W<->N). Any other transition has no kicks.
use vstd::prelude::*;

use crate::coord::Coord;

use super::rotation::Rotation;
use super::srs::offset;
use super::tetromino::TetrominoKind;

verus! {

/// Kick offsets shared by J, L, S, T and Z for the transition `from -> to`.
pub open spec fn jlstz_table(from: Rotation, to: Rotation) -> Seq<Coord> {
    match (from, to) {
        (Rotation::North, Rotation::East) => seq![offset(0, 0), offset(-1, 0), offset(-1, -1), offset(0, 2), offset(-1, 2)],
        (Rotation::East, Rotation::North) => seq![offset(0, 0), offset(1, 0), offset(1, 1), offset(0, -2), offset(1, -2)],
        (Rotation::East, Rotation::South) => seq![offset(0, 0), offset(1, 0), offset(1, 1), offset(0, -2), offset(1, -2)],
        (Rotation::South, Rotation::East) => seq![offset(0, 0), offset(-1, 0), offset(-1, -1), offset(0, 2), offset(-1, 2)],
        (Rotation::South, Rotation::West) => seq![offset(0, 0), offset(1, 0), offset(1, -1), offset(0, 2), offset(1, 2)],
        (Rotation::West, Rotation::South) => seq![offset(0, 0), offset(-1, 0), offset(-1, 1), offset(0, -2), offset(-1, -2)],
        (Rotation::West, Rotation::North) => seq![offset(0, 0), offset(-1, 0), offset(-1, 1), offset(0, -2), offset(-1, -2)],
        (Rotation::North, Rotation::West) => seq![offset(0, 0), offset(1, 0), offset(1, -1), offset(0, 2), offset(1, 2)],
        _ => Seq::empty(),
    }
}

/// Kick offsets of the I piece for the transition `from -> to`.
pub open spec fn i_table(from: Rotation, to: Rotation) -> Seq<Coord> {
    match (from, to) {
        (Rotation::North, Rotation::East) => seq![offset(0, 0), offset(-2, 0), offset(1, 0), offset(-2, 1), offset(1, -2)],
        (Rotation::East, Rotation::North) => seq![offset(0, 0), offset(2, 0), offset(-1, 0), offset(2, -1), offset(-1, 2)],
        (Rotation::East, Rotation::South) => seq![offset(0, 0), offset(-1, 0), offset(2, 0), offset(-1, -2), offset(2, 1)],
        (Rotation::South, Rotation::East) => seq![offset(0, 0), offset(1, 0), offset(-2, 0), offset(1, 2), offset(-2, -1)],
        (Rotation::South, Rotation::West) => seq![offset(0, 0), offset(2, 0), offset(-1, 0), offset(2, -1), offset(-1, 2)],
        (Rotation::West, Rotation::South) => seq![offset(0, 0), offset(-2, 0), offset(1, 0), offset(-2, 1), offset(1, -2)],
        (Rotation::West, Rotation::North) => seq![offset(0, 0), offset(1, 0), offset(-2, 0), offset(1, 2), offset(-2, -1)],
        (Rotation::North, Rotation::West) => seq![offset(0, 0), offset(-1, 0), offset(2, 0), offset(-1, -2), offset(2, 1)],
        _ => Seq::empty(),
    }
}

/// The kick offsets tried, in order, when `kind` turns from `from` to `to`.
pub open spec fn kick_table(kind: TetrominoKind, from: Rotation, to: Rotation) -> Seq<Coord> {
    match kind {
        TetrominoKind::O => Seq::empty(),
        TetrominoKind::I => i_table(from, to),
        _ => jlstz_table(from, to),
    }
}

/// `from` and `to` are one quarter turn apart.
pub open spec fn is_quarter_turn(from: Rotation, to: Rotation) -> bool {
    match (from, to) {
        (Rotation::North, Rotation::East) | (Rotation::East, Rotation::North) | (
            Rotation::East,
            Rotation::South,
        ) | (Rotation::South, Rotation::East) | (Rotation::South, Rotation::West) | (
            Rotation::West,
            Rotation::South,
        ) | (Rotation::West, Rotation::North) | (Rotation::North, Rotation::West) => true,
        _ => false,
    }
}

fn k(x: i32, y: i32) -> (r: Coord)
    ensures
        r == (Coord { x, y }),
{
    Coord::new(x, y)
}

pub fn srs_wall_kicks(kind: TetrominoKind, from: Rotation, to: Rotation) -> (r: Vec<Coord>)
    ensures
        r@ == kick_table(kind, from, to),
{
    match kind {
        TetrominoKind::O => Vec::new(),
        TetrominoKind::I => i_kicks(from, to),
        _ => jlstz_kicks(from, to),
    }
}

fn jlstz_kicks(from: Rotation, to: Rotation) -> (r: Vec<Coord>)
    ensures
        r@ == jlstz_table(from, to),
{
    let r = match (from, to) {
        (Rotation::North, Rotation::East) => vec![k(0, 0), k(-1, 0), k(-1, -1), k(0, 2), k(-1, 2)],
        (Rotation::East, Rotation::North) => vec![k(0, 0), k(1, 0), k(1, 1), k(0, -2), k(1, -2)],
        (Rotation::East, Rotation::South) => vec![k(0, 0), k(1, 0), k(1, 1), k(0, -2), k(1, -2)],
        (Rotation::South, Rotation::East) => vec![k(0, 0), k(-1, 0), k(-1, -1), k(0, 2), k(-1, 2)],
        (Rotation::South, Rotation::West) => vec![k(0, 0), k(1, 0), k(1, -1), k(0, 2), k(1, 2)],
        (Rotation::West, Rotation::South) => vec![k(0, 0), k(-1, 0), k(-1, 1), k(0, -2), k(-1, -2)],
        (Rotation::West, Rotation::North) => vec![k(0, 0), k(-1, 0), k(-1, 1), k(0, -2), k(-1, -2)],
        (Rotation::North, Rotation::West) => vec![k(0, 0), k(1, 0), k(1, -1), k(0, 2), k(1, 2)],
        _ => Vec::new(),
    };
    assert(r@ =~= jlstz_table(from, to));
    r
}

fn i_kicks(from: Rotation, to: Rotation) -> (r: Vec<Coord>)
    ensures
        r@ == i_table(from, to),
{
    let r = match (from, to) {
        (Rotation::North, Rotation::East) => vec![k(0, 0), k(-2, 0), k(1, 0), k(-2, 1), k(1, -2)],
        (Rotation::East, Rotation::North) => vec![k(0, 0), k(2, 0), k(-1, 0), k(2, -1), k(-1, 2)],
        (Rotation::East, Rotation::South) => vec![k(0, 0), k(-1, 0), k(2, 0), k(-1, -2), k(2, 1)],
        (Rotation::South, Rotation::East) => vec![k(0, 0), k(1, 0), k(-2, 0), k(1, 2), k(-2, -1)],
        (Rotation::South, Rotation::West) => vec![k(0, 0), k(2, 0), k(-1, 0), k(2, -1), k(-1, 2)],
        (Rotation::West, Rotation::South) => vec![k(0, 0), k(-2, 0), k(1, 0), k(-2, 1), k(1, -2)],
        (Rotation::West, Rotation::North) => vec![k(0, 0), k(1, 0), k(-2, 0), k(1, 2), k(-2, -1)],
        (Rotation::North, Rotation::West) => vec![k(0, 0), k(-1, 0), k(2, 0), k(-1, -2), k(2, 1)],
        _ => Vec::new(),
    };
    assert(r@ =~= i_table(from, to));
    r
}

/// Every kicking piece has five candidate offsets for a quarter turn, the
/// first of which is the in-place test (0, 0); other transitions, and the O
/// piece, have none.
pub proof fn lemma_kick_table_shape(kind: TetrominoKind, from: Rotation, to: Rotation)
    ensures
        kind != TetrominoKind::O && is_quarter_turn(from, to) ==> kick_table(kind, from, to).len()
            == 5 && kick_table(kind, from, to)[0] == offset(0, 0),
        kind == TetrominoKind::O || !is_quarter_turn(from, to) ==> kick_table(
            kind,
            from,
            to,
        ).len() == 0,
{
}

/// Kicks are symmetric: turning back from `to` to `from` tries the exact
/// opposite offsets, in the same order.
pub proof fn lemma_kick_table_reverse_negates(kind: TetrominoKind, from: Rotation, to: Rotation)
    ensures
        kick_table(kind, to, from).len() == kick_table(kind, from, to).len(),
        forall|i: int|
            0 <= i < kick_table(kind, from, to).len() ==> #[trigger] kick_table(kind, to, from)[i].x
                == -kick_table(kind, from, to)[i].x && kick_table(kind, to, from)[i].y
                == -kick_table(kind, from, to)[i].y,
{
}

/// Every kick offset moves a piece by at most two cells along each axis.
pub proof fn lemma_kick_offsets_small(kind: TetrominoKind, from: Rotation, to: Rotation)
    ensures
        forall|i: int|
            0 <= i < kick_table(kind, from, to).len() ==> -2 <= #[trigger] kick_table(
                kind,
                from,
                to,
            )[i].x <= 2 && -2 <= kick_table(kind, from, to)[i].y <= 2,
{
}

/// Kicks come from per-orientation offsets (a kick is the offset of the
/// orientation left minus that of the one entered), so going once around the
/// four orientations the `i`-th tests cancel out.
pub proof fn lemma_kicks_cancel_around_a_full_turn(kind: TetrominoKind, i: int)
    requires
        kind != TetrominoKind::O,
        0 <= i < 5,
    ensures
        kick_table(kind, Rotation::North, Rotation::East)[i].x + kick_table(kind, Rotation::East, Rotation::South)[i].x
            + kick_table(kind, Rotation::South, Rotation::West)[i].x + kick_table(kind, Rotation::West, Rotation::North)[i].x == 0,
        kick_table(kind, Rotation::North, Rotation::East)[i].y + kick_table(kind, Rotation::East, Rotation::South)[i].y
            + kick_table(kind, Rotation::South, Rotation::West)[i].y + kick_table(kind, Rotation::West, Rotation::North)[i].y == 0,
{
}

/// For J, L, S, T and Z, North and South have the same (zero) offsets: a
/// turn out of East or West tries the same kicks whether it ends North or
/// South, and a turn into East or West tries the same kicks from North as
/// from South.
pub proof fn lemma_jlstz_north_and_south_kick_alike(kind: TetrominoKind)
    requires
        kind != TetrominoKind::O,
        kind != TetrominoKind::I,
    ensures
        kick_table(kind, Rotation::East, Rotation::North) == kick_table(kind, Rotation::East, Rotation::South),
        kick_table(kind, Rotation::West, Rotation::North) == kick_table(kind, Rotation::West, Rotation::South),
        kick_table(kind, Rotation::North, Rotation::East) == kick_table(kind, Rotation::South, Rotation::East),
        kick_table(kind, Rotation::North, Rotation::West) == kick_table(kind, Rotation::South, Rotation::West),
{
}

} // verus!
