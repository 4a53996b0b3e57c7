use vstd::prelude::*;

use crate::coord::Coord;

verus! {

/// The seven one-sided tetrominoes.
#[derive(Clone, Copy, Debug, PartialEq, Eq, Hash, Structural)]
pub enum TetrominoKind {
    I,
    O,
    T,
    S,
    Z,
    J,
    L,
}

/// Every kind once, in the canonical order I, O, T, S, Z, J, L.
pub open spec fn all_kinds() -> Seq<TetrominoKind> {
    seq![
        TetrominoKind::I,
        TetrominoKind::O,
        TetrominoKind::T,
        TetrominoKind::S,
        TetrominoKind::Z,
        TetrominoKind::J,
        TetrominoKind::L,
    ]
}

/// Spawn origin (bounding-box bottom-left corner, in board coordinates).
pub open spec fn spec_spawn_origin(kind: TetrominoKind) -> Coord {
    match kind {
        TetrominoKind::I => Coord { x: 3, y: 18 },
        _ => Coord { x: 3, y: 19 },
    }
}

impl TetrominoKind {
    pub const ALL: [TetrominoKind; 7] = [
        TetrominoKind::I,
        TetrominoKind::O,
        TetrominoKind::T,
        TetrominoKind::S,
        TetrominoKind::Z,
        TetrominoKind::J,
        TetrominoKind::L,
    ];

    /// Canonical SRS spawn origin (bounding-box bottom-left, in board coords).
    ///
    /// All pieces are centered horizontally at the standard SRS columns and
    /// drop their bottom row into the first buffer row (y = 20). The y origin
    /// differs because the I-piece uses a 4x4 box while the others use a 3x3.
    pub fn spawn_origin(self) -> (c: Coord)
        ensures
            c == spec_spawn_origin(self),
    {
        match self {
            TetrominoKind::I => Coord::new(3, 18),
            _ => Coord::new(3, 19),
        }
    }
}

/// The canonical list holds every kind exactly once.
pub proof fn lemma_all_kinds_complete()
    ensures
        all_kinds().len() == 7,
        all_kinds().no_duplicates(),
        forall|k: TetrominoKind| all_kinds().contains(k),
{
    assert forall|k: TetrominoKind| all_kinds().contains(k) by {
        match k {
            TetrominoKind::I => assert(all_kinds()[0] == k),
            TetrominoKind::O => assert(all_kinds()[1] == k),
            TetrominoKind::T => assert(all_kinds()[2] == k),
            TetrominoKind::S => assert(all_kinds()[3] == k),
            TetrominoKind::Z => assert(all_kinds()[4] == k),
            TetrominoKind::J => assert(all_kinds()[5] == k),
            TetrominoKind::L => assert(all_kinds()[6] == k),
        }
    }
}

} // verus!
