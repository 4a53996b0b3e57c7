//! SRS rotation states.
//!
//! Each tetromino's blocks are given as offsets within its bounding box,
//! with the box origin at the bottom-left (y = 0 at the bottom).
//!
//! - I-piece: 4x4 bounding box.
//! - All others: 3x3 bounding box.
use vstd::prelude::*;

use crate::coord::Coord;

use super::rotation::{Rotation, RotationDirection, spec_rotated};
use super::tetromino::{TetrominoKind, all_kinds, spec_spawn_origin};

verus! {

/// The offset `(x, y)` as a grid vector.
pub open spec fn offset(x: int, y: int) -> Coord {
    Coord { x: x as i32, y: y as i32 }
}

/// The four block offsets of `kind` in orientation `rotation`, in the order
/// the SRS tables list them.
pub open spec fn shape(kind: TetrominoKind, rotation: Rotation) -> Seq<Coord> {
    match kind {
        TetrominoKind::I => match rotation {
            Rotation::North => seq![offset(0, 2), offset(1, 2), offset(2, 2), offset(3, 2)],
            Rotation::East => seq![offset(2, 0), offset(2, 1), offset(2, 2), offset(2, 3)],
            Rotation::South => seq![offset(0, 1), offset(1, 1), offset(2, 1), offset(3, 1)],
            Rotation::West => seq![offset(1, 0), offset(1, 1), offset(1, 2), offset(1, 3)],
        },
        TetrominoKind::O => seq![offset(1, 1), offset(2, 1), offset(1, 2), offset(2, 2)],
        TetrominoKind::T => match rotation {
            Rotation::North => seq![offset(1, 2), offset(0, 1), offset(1, 1), offset(2, 1)],
            Rotation::East => seq![offset(1, 2), offset(1, 1), offset(2, 1), offset(1, 0)],
            Rotation::South => seq![offset(0, 1), offset(1, 1), offset(2, 1), offset(1, 0)],
            Rotation::West => seq![offset(1, 2), offset(0, 1), offset(1, 1), offset(1, 0)],
        },
        TetrominoKind::S => match rotation {
            Rotation::North => seq![offset(1, 2), offset(2, 2), offset(0, 1), offset(1, 1)],
            Rotation::East => seq![offset(1, 2), offset(1, 1), offset(2, 1), offset(2, 0)],
            Rotation::South => seq![offset(1, 1), offset(2, 1), offset(0, 0), offset(1, 0)],
            Rotation::West => seq![offset(0, 2), offset(0, 1), offset(1, 1), offset(1, 0)],
        },
        TetrominoKind::Z => match rotation {
            Rotation::North => seq![offset(0, 2), offset(1, 2), offset(1, 1), offset(2, 1)],
            Rotation::East => seq![offset(2, 2), offset(1, 1), offset(2, 1), offset(1, 0)],
            Rotation::South => seq![offset(0, 1), offset(1, 1), offset(1, 0), offset(2, 0)],
            Rotation::West => seq![offset(1, 2), offset(0, 1), offset(1, 1), offset(0, 0)],
        },
        TetrominoKind::J => match rotation {
            Rotation::North => seq![offset(0, 2), offset(0, 1), offset(1, 1), offset(2, 1)],
            Rotation::East => seq![offset(1, 2), offset(2, 2), offset(1, 1), offset(1, 0)],
            Rotation::South => seq![offset(0, 1), offset(1, 1), offset(2, 1), offset(2, 0)],
            Rotation::West => seq![offset(1, 2), offset(1, 1), offset(0, 0), offset(1, 0)],
        },
        TetrominoKind::L => match rotation {
            Rotation::North => seq![offset(2, 2), offset(0, 1), offset(1, 1), offset(2, 1)],
            Rotation::East => seq![offset(1, 2), offset(1, 1), offset(1, 0), offset(2, 0)],
            Rotation::South => seq![offset(0, 1), offset(1, 1), offset(2, 1), offset(0, 0)],
            Rotation::West => seq![offset(0, 2), offset(1, 2), offset(1, 1), offset(1, 0)],
        },
    }
}

/// Side length of the SRS bounding box of `kind`.
pub open spec fn box_size(kind: TetrominoKind) -> int {
    match kind {
        TetrominoKind::I => 4,
        _ => 3,
    }
}

fn v(x: i32, y: i32) -> (r: Coord)
    ensures
        r == (Coord { x, y }),
{
    Coord::new(x, y)
}

pub fn blocks_for(kind: TetrominoKind, rotation: Rotation) -> (r: [Coord; 4])
    ensures
        r@ == shape(kind, rotation),
{
    match kind {
        TetrominoKind::I => i_blocks(rotation),
        TetrominoKind::O => o_blocks(rotation),
        TetrominoKind::T => t_blocks(rotation),
        TetrominoKind::S => s_blocks(rotation),
        TetrominoKind::Z => z_blocks(rotation),
        TetrominoKind::J => j_blocks(rotation),
        TetrominoKind::L => l_blocks(rotation),
    }
}

fn i_blocks(rotation: Rotation) -> (r: [Coord; 4])
    ensures
        r@ == shape(TetrominoKind::I, rotation),
{
    let r = match rotation {
        Rotation::North => [v(0, 2), v(1, 2), v(2, 2), v(3, 2)],
        Rotation::East => [v(2, 0), v(2, 1), v(2, 2), v(2, 3)],
        Rotation::South => [v(0, 1), v(1, 1), v(2, 1), v(3, 1)],
        Rotation::West => [v(1, 0), v(1, 1), v(1, 2), v(1, 3)],
    };
    assert(r@ =~= shape(TetrominoKind::I, rotation));
    r
}

fn o_blocks(rotation: Rotation) -> (r: [Coord; 4])
    ensures
        r@ == shape(TetrominoKind::O, rotation),
{
    let r = [v(1, 1), v(2, 1), v(1, 2), v(2, 2)];
    assert(r@ =~= shape(TetrominoKind::O, rotation));
    r
}

fn t_blocks(rotation: Rotation) -> (r: [Coord; 4])
    ensures
        r@ == shape(TetrominoKind::T, rotation),
{
    let r = match rotation {
        Rotation::North => [v(1, 2), v(0, 1), v(1, 1), v(2, 1)],
        Rotation::East => [v(1, 2), v(1, 1), v(2, 1), v(1, 0)],
        Rotation::South => [v(0, 1), v(1, 1), v(2, 1), v(1, 0)],
        Rotation::West => [v(1, 2), v(0, 1), v(1, 1), v(1, 0)],
    };
    assert(r@ =~= shape(TetrominoKind::T, rotation));
    r
}

fn s_blocks(rotation: Rotation) -> (r: [Coord; 4])
    ensures
        r@ == shape(TetrominoKind::S, rotation),
{
    let r = match rotation {
        Rotation::North => [v(1, 2), v(2, 2), v(0, 1), v(1, 1)],
        Rotation::East => [v(1, 2), v(1, 1), v(2, 1), v(2, 0)],
        Rotation::South => [v(1, 1), v(2, 1), v(0, 0), v(1, 0)],
        Rotation::West => [v(0, 2), v(0, 1), v(1, 1), v(1, 0)],
    };
    assert(r@ =~= shape(TetrominoKind::S, rotation));
    r
}

fn z_blocks(rotation: Rotation) -> (r: [Coord; 4])
    ensures
        r@ == shape(TetrominoKind::Z, rotation),
{
    let r = match rotation {
        Rotation::North => [v(0, 2), v(1, 2), v(1, 1), v(2, 1)],
        Rotation::East => [v(2, 2), v(1, 1), v(2, 1), v(1, 0)],
        Rotation::South => [v(0, 1), v(1, 1), v(1, 0), v(2, 0)],
        Rotation::West => [v(1, 2), v(0, 1), v(1, 1), v(0, 0)],
    };
    assert(r@ =~= shape(TetrominoKind::Z, rotation));
    r
}

fn j_blocks(rotation: Rotation) -> (r: [Coord; 4])
    ensures
        r@ == shape(TetrominoKind::J, rotation),
{
    let r = match rotation {
        Rotation::North => [v(0, 2), v(0, 1), v(1, 1), v(2, 1)],
        Rotation::East => [v(1, 2), v(2, 2), v(1, 1), v(1, 0)],
        Rotation::South => [v(0, 1), v(1, 1), v(2, 1), v(2, 0)],
        Rotation::West => [v(1, 2), v(1, 1), v(0, 0), v(1, 0)],
    };
    assert(r@ =~= shape(TetrominoKind::J, rotation));
    r
}

fn l_blocks(rotation: Rotation) -> (r: [Coord; 4])
    ensures
        r@ == shape(TetrominoKind::L, rotation),
{
    let r = match rotation {
        Rotation::North => [v(2, 2), v(0, 1), v(1, 1), v(2, 1)],
        Rotation::East => [v(1, 2), v(1, 1), v(1, 0), v(2, 0)],
        Rotation::South => [v(0, 1), v(1, 1), v(2, 1), v(0, 0)],
        Rotation::West => [v(0, 2), v(1, 2), v(1, 1), v(1, 0)],
    };
    assert(r@ =~= shape(TetrominoKind::L, rotation));
    r
}

/// Every orientation of every piece has exactly four distinct cells.
pub proof fn lemma_shape_cells_distinct(kind: TetrominoKind, rotation: Rotation)
    ensures
        shape(kind, rotation).len() == 4,
        shape(kind, rotation).no_duplicates(),
{
}

/// Every cell of every orientation lies inside the piece's SRS bounding box.
pub proof fn lemma_shape_within_box(kind: TetrominoKind, rotation: Rotation)
    ensures
        forall|i: int|
            0 <= i < 4 ==> 0 <= #[trigger] shape(kind, rotation)[i].x < box_size(kind) && 0
                <= shape(kind, rotation)[i].y < box_size(kind),
{
}

/// The O piece occupies the same cells in every orientation.
pub proof fn lemma_o_rotation_invariant(rotation: Rotation)
    ensures
        shape(TetrominoKind::O, rotation) == shape(TetrominoKind::O, Rotation::North),
{
}

/// At spawn (North orientation, at the spawn origin) the lowest block of
/// every piece sits on row 20, the first buffer row above the visible field.
pub proof fn lemma_spawn_lowest_block_in_buffer(kind: TetrominoKind)
    ensures
        forall|i: int|
            0 <= i < 4 ==> spec_spawn_origin(kind).y + #[trigger] shape(kind, Rotation::North)[i].y
                >= 20,
        exists|i: int|
            0 <= i < 4 && spec_spawn_origin(kind).y + #[trigger] shape(kind, Rotation::North)[i].y
                == 20,
{
    let s = shape(kind, Rotation::North);
    match kind {
        TetrominoKind::I => assert(spec_spawn_origin(kind).y + s[0].y == 20),
        TetrominoKind::O => assert(spec_spawn_origin(kind).y + s[0].y == 20),
        TetrominoKind::S => assert(spec_spawn_origin(kind).y + s[2].y == 20),
        TetrominoKind::Z => assert(spec_spawn_origin(kind).y + s[2].y == 20),
        _ => assert(spec_spawn_origin(kind).y + s[1].y == 20),
    }
}

/// Cell `c` of an `n`-wide box after a quarter turn clockwise about the
/// box's centre (`y` grows upwards).
pub open spec fn quarter_turned(c: Coord, n: int) -> Coord {
    offset(c.y as int, n - 1 - c.x)
}

/// Each orientation of a piece is the previous one turned a quarter turn
/// clockwise inside its SRS box: the two cell sets correspond one to one
/// under the turn. (The O piece does not turn; its cells stay put.)
pub proof fn lemma_orientations_are_quarter_turns(kind: TetrominoKind, rotation: Rotation)
    requires
        kind != TetrominoKind::O,
    ensures
        ({
            let s = shape(kind, rotation);
            let t = shape(kind, spec_rotated(rotation, RotationDirection::Clockwise));
            let n = box_size(kind);
            &&& forall|i: int| 0 <= i < 4 ==> t.contains(#[trigger] quarter_turned(s[i], n))
            &&& forall|j: int|
                #![trigger t[j]]
                0 <= j < 4 ==> exists|i: int| 0 <= i < 4 && #[trigger] quarter_turned(s[i], n) == t[j]
        }),
{
    let s = shape(kind, rotation);
    let t = shape(kind, spec_rotated(rotation, RotationDirection::Clockwise));
    let n = box_size(kind);
    assert forall|i: int| 0 <= i < 4 implies t.contains(#[trigger] quarter_turned(s[i], n)) by {
        assert(i == 0 || i == 1 || i == 2 || i == 3);
        if i == 0 { assert(t.contains(quarter_turned(s[0], n))) by { lemma_turn_witness(kind, rotation, 0); } }
        if i == 1 { assert(t.contains(quarter_turned(s[1], n))) by { lemma_turn_witness(kind, rotation, 1); } }
        if i == 2 { assert(t.contains(quarter_turned(s[2], n))) by { lemma_turn_witness(kind, rotation, 2); } }
        if i == 3 { assert(t.contains(quarter_turned(s[3], n))) by { lemma_turn_witness(kind, rotation, 3); } }
    }
    assert forall|j: int| #![trigger t[j]] 0 <= j < 4 implies exists|i: int|
        0 <= i < 4 && #[trigger] quarter_turned(s[i], n) == t[j] by {
        lemma_turn_preimage(kind, rotation, j);
    }
}

proof fn lemma_turn_witness(kind: TetrominoKind, rotation: Rotation, i: int)
    requires
        kind != TetrominoKind::O,
        0 <= i < 4,
    ensures
        exists|j: int|
            0 <= j < 4 && shape(kind, spec_rotated(rotation, RotationDirection::Clockwise))[j]
                == quarter_turned(shape(kind, rotation)[i], box_size(kind)),
{
    let s = shape(kind, rotation);
    let t = shape(kind, spec_rotated(rotation, RotationDirection::Clockwise));
    let n = box_size(kind);
    let c = quarter_turned(s[i], n);
    assert(t[0] == c || t[1] == c || t[2] == c || t[3] == c);
    if t[0] == c {
        assert(0 <= 0int < 4 && t[0] == c);
    } else if t[1] == c {
        assert(0 <= 1int < 4 && t[1] == c);
    } else if t[2] == c {
        assert(0 <= 2int < 4 && t[2] == c);
    } else {
        assert(0 <= 3int < 4 && t[3] == c);
    }
}

proof fn lemma_turn_preimage(kind: TetrominoKind, rotation: Rotation, j: int)
    requires
        kind != TetrominoKind::O,
        0 <= j < 4,
    ensures
        exists|i: int|
            0 <= i < 4 && #[trigger] quarter_turned(shape(kind, rotation)[i], box_size(kind))
                == shape(kind, spec_rotated(rotation, RotationDirection::Clockwise))[j],
{
    let s = shape(kind, rotation);
    let t = shape(kind, spec_rotated(rotation, RotationDirection::Clockwise));
    let n = box_size(kind);
    let q0 = quarter_turned(s[0], n);
    let q1 = quarter_turned(s[1], n);
    let q2 = quarter_turned(s[2], n);
    let q3 = quarter_turned(s[3], n);
    assert(q0 == t[j] || q1 == t[j] || q2 == t[j] || q3 == t[j]);
}

/// J and L are mirror images, never the same cells: no orientation of J
/// covers the cells of any orientation of L.
pub proof fn lemma_j_and_l_never_coincide(r1: Rotation, r2: Rotation)
    ensures
        shape(TetrominoKind::J, r1).to_set() != shape(TetrominoKind::L, r2).to_set(),
{
    let j = shape(TetrominoKind::J, r1);
    let l = shape(TetrominoKind::L, r2);
    if j.to_set() == l.to_set() {
        assert(l.contains(j[0]) && l.contains(j[1]) && l.contains(j[2]) && l.contains(j[3])) by {
            assert(j.to_set().contains(j[0]) && j.to_set().contains(j[1]));
            assert(j.to_set().contains(j[2]) && j.to_set().contains(j[3]));
        }
        assert(j.contains(l[0]) && j.contains(l[1]) && j.contains(l[2]) && j.contains(l[3])) by {
            assert(l.to_set().contains(l[0]) && l.to_set().contains(l[1]));
            assert(l.to_set().contains(l[2]) && l.to_set().contains(l[3]));
        }
        assert(false);
    }
}

} // verus!
