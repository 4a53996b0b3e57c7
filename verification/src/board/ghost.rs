//! Ghost piece projection.
//!
//! The ghost is a visual-only hint of where the active piece would land if
//! hard-dropped right now. It must never affect collision, locking or any
//! other gameplay state.
use vstd::prelude::*;

use super::active_piece::{ActivePiece, has_block_room};
use super::collision::{hard_drop, is_resting_drop};
use super::grid::Board;

verus! {

/// Returns the piece projected straight down to its resting position. The
/// returned piece keeps the same kind and rotation as the input.
pub fn projected_piece(piece: &ActivePiece, board: &Board) -> (r: ActivePiece)
    requires
        has_block_room(piece.grid_position),
        piece.grid_position.y > i32::MIN,
    ensures
        is_resting_drop(*piece, *board, r),
        r.kind == piece.kind,
        r.rotation == piece.rotation,
        r.grid_position.x == piece.grid_position.x,
{
    hard_drop(piece, board)
}

} // verus!
