//! The blocks the board panel draws, back to front: the locked cells, the
//! ghost projection, then the active piece. The ghost is left out when it
//! would sit exactly under the active piece (the piece is grounded), so no
//! redundant translucent layer is drawn.
use vstd::prelude::*;

use crate::board::active_piece::{ActivePiece, has_block_room};
use crate::board::collision::{is_resting_drop, lemma_resting_drop_unique_and_idempotent};
use crate::board::ghost::projected_piece;
use crate::board::grid::{BOARD_HEIGHT, BOARD_WIDTH, Board};
use crate::coord::Coord;
use crate::pieces::TetrominoKind;

verus! {

/// How a block is drawn: locked in the stack, as the translucent landing
/// shadow of the active piece (the ghost), or as the active piece.
#[derive(Clone, Copy, Debug, PartialEq, Eq, Structural)]
pub enum BlockLayer {
    Locked,
    Shadow,
    Active,
}

/// One block to draw: its colour (the kind it came from), its cell and its layer.
#[derive(Clone, Copy, Debug, PartialEq, Eq, Structural)]
pub struct SceneBlock {
    pub kind: TetrominoKind,
    pub at: Coord,
    pub layer: BlockLayer,
}

/// The locked cells among the first `n` cells in row-major order (row 0
/// first, left to right within a row).
pub open spec fn locked_upto(board: Board, n: nat) -> Seq<SceneBlock>
    decreases n,
{
    if n == 0 {
        Seq::empty()
    } else {
        let i = n - 1;
        let x = i % (BOARD_WIDTH as int);
        let y = i / (BOARD_WIDTH as int);
        let prev = locked_upto(board, (n - 1) as nat);
        match board.cell(x, y) {
            Some(k) => prev.push(
                SceneBlock { kind: k, at: Coord { x: x as i32, y: y as i32 }, layer: BlockLayer::Locked },
            ),
            None => prev,
        }
    }
}

/// Every locked cell of the board, row by row from the bottom.
pub open spec fn locked_blocks(board: Board) -> Seq<SceneBlock> {
    locked_upto(board, (BOARD_WIDTH * BOARD_HEIGHT) as nat)
}

/// The four blocks of `p`, drawn on `layer`.
pub open spec fn piece_blocks(p: ActivePiece, layer: BlockLayer) -> Seq<SceneBlock> {
    Seq::new(
        4,
        |i: int|
            SceneBlock {
                kind: p.kind,
                at: Coord { x: p.block_x(i) as i32, y: p.block_y(i) as i32 },
                layer,
            },
    )
}

/// Where `p` comes to rest when dropped straight down.
pub open spec fn resting_place(p: ActivePiece, board: Board) -> ActivePiece {
    choose|g: ActivePiece| is_resting_drop(p, board, g)
}

/// The scene of `board` with the active piece `piece`, if any: locked
/// cells, then the ghost (when enabled and not under the piece), then the
/// piece itself.
pub open spec fn scene(board: Board, piece: Option<ActivePiece>, ghost_enabled: bool) -> Seq<
    SceneBlock,
> {
    match piece {
        None => locked_blocks(board),
        Some(p) => {
            let g = resting_place(p, board);
            let shadow = if ghost_enabled && g.grid_position != p.grid_position {
                piece_blocks(g, BlockLayer::Shadow)
            } else {
                Seq::empty()
            };
            locked_blocks(board) + shadow + piece_blocks(p, BlockLayer::Active)
        },
    }
}

fn push_piece(v: &mut Vec<SceneBlock>, p: &ActivePiece, layer: BlockLayer)
    requires
        has_block_room(p.grid_position),
    ensures
        final(v)@ == old(v)@ + piece_blocks(*p, layer),
{
    let blocks = p.blocks();
    let ghost start = v@;
    let mut i: usize = 0;
    while i < 4
        invariant
            0 <= i <= 4,
            forall|j: int|
                0 <= j < 4 ==> (#[trigger] blocks[j]).x == p.block_x(j) && blocks[j].y == p.block_y(j),
            v@ == start + piece_blocks(*p, layer).take(i as int),
        decreases 4 - i,
    {
        v.push(SceneBlock { kind: p.kind, at: blocks[i], layer });
        i += 1;
        proof {
            assert(v@ =~= start + piece_blocks(*p, layer).take(i as int));
        }
    }
    assert(piece_blocks(*p, layer).take(4) =~= piece_blocks(*p, layer));
}

/// Lists the blocks to draw for `board` and the active piece, back to front.
pub fn board_scene(board: &Board, piece: Option<ActivePiece>, ghost_enabled: bool) -> (v: Vec<
    SceneBlock,
>)
    requires
        piece matches Some(p) ==> has_block_room(p.grid_position) && p.grid_position.y > i32::MIN,
    ensures
        v@ == scene(*board, piece, ghost_enabled),
{
    let mut v: Vec<SceneBlock> = Vec::new();
    let mut y: i32 = 0;
    while y < BOARD_HEIGHT as i32
        invariant
            0 <= y <= BOARD_HEIGHT,
            v@ == locked_upto(*board, (y * BOARD_WIDTH) as nat),
        decreases BOARD_HEIGHT - y,
    {
        let mut x: i32 = 0;
        while x < BOARD_WIDTH as i32
            invariant
                0 <= x <= BOARD_WIDTH,
                0 <= y < BOARD_HEIGHT,
                v@ == locked_upto(*board, (y * BOARD_WIDTH + x) as nat),
            decreases BOARD_WIDTH - x,
        {
            let cell = board.get(x, y);
            proof {
                let n = y * 10 + x;
                assert(n % 10 == x && n / 10 == y) by (nonlinear_arith)
                    requires
                        n == y * 10 + x,
                        0 <= x < 10,
                        0 <= y,
                ;
            }
            match cell {
                Some(k) => v.push(SceneBlock { kind: k, at: Coord { x, y }, layer: BlockLayer::Locked }),
                None => {},
            }
            x += 1;
        }
        y += 1;
    }
    match piece {
        None => v,
        Some(p) => {
            if ghost_enabled {
                let g = projected_piece(&p, board);
                proof {
                    let r = resting_place(p, *board);
                    lemma_resting_drop_unique_and_idempotent(p, *board, g, r);
                }
                if g.grid_position != p.grid_position {
                    push_piece(&mut v, &g, BlockLayer::Shadow);
                }
            }
            let ghost mid = v@;
            push_piece(&mut v, &p, BlockLayer::Active);
            proof {
                if !ghost_enabled {
                    assert(mid =~= locked_blocks(*board) + Seq::<SceneBlock>::empty());
                }
            }
            v
        },
    }
}

} // verus!
