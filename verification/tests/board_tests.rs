use std::time::Duration;

use blockvy::board::{
    ActivePiece, BOARD_HEIGHT, BOARD_WIDTH, Board, LockResolution, apply_gravity_ticks,
    can_place, clear_full_lines, clear_rows, detect_full_rows, finalize_lock, finish_line_clear,
    gravity_interval_for, hard_drop, lock_piece, projected_piece, resolve_lock, stamp_lock,
    try_rotate, try_step_down,
};
use blockvy::pieces::{Rotation, RotationDirection, SevenBag, TetrominoKind, WallKickMode};
use blockvy::Coord;

fn fill_row(board: &mut Board, y: i32, kind: TetrominoKind) {
    for x in 0..BOARD_WIDTH as i32 {
        board.set(x, y, kind);
    }
}

fn occupied(board: &Board) -> usize {
    board.cells.iter().flatten().filter(|c| c.is_some()).count()
}

// ---- active piece ----

#[test]
fn blocks_offset_by_grid_position() {
    let piece = ActivePiece::new(TetrominoKind::T, Coord::new(4, 18));
    let blocks = piece.blocks();
    let mut sorted = blocks;
    sorted.sort_by_key(|v| (v.y, v.x));
    assert_eq!(
        sorted,
        [
            Coord::new(4, 19),
            Coord::new(5, 19),
            Coord::new(6, 19),
            Coord::new(5, 20),
        ]
    );
}

#[test]
fn moved_down_decreases_y() {
    let piece = ActivePiece::new(TetrominoKind::I, Coord::new(3, 20));
    let after = piece.moved_down();
    assert_eq!(after.grid_position, Coord::new(3, 19));
}

#[test]
fn rotated_changes_only_rotation() {
    let piece = ActivePiece::new(TetrominoKind::J, Coord::new(3, 18));
    let cw = piece.rotated(RotationDirection::Clockwise);
    assert_eq!(cw.kind, piece.kind);
    assert_eq!(cw.grid_position, piece.grid_position);
    assert_eq!(cw.rotation, Rotation::East);
}

#[test]
fn moved_by_adds_offset() {
    let piece = ActivePiece::new(TetrominoKind::L, Coord::new(2, 7));
    let moved = piece.moved_by(Coord::new(-3, 5));
    assert_eq!(moved.grid_position, Coord::new(-1, 12));
    assert_eq!(moved.rotation, Rotation::North);
}

// ---- collision ----

#[test]
fn fits_on_empty_board() {
    let board = Board::default();
    let piece = ActivePiece::new(TetrominoKind::T, Coord::new(4, 18));
    assert!(can_place(&piece, &board));
}

#[test]
fn rejects_left_overflow() {
    let board = Board::default();
    let piece = ActivePiece::new(TetrominoKind::T, Coord::new(-1, 10));
    assert!(!can_place(&piece, &board));
}

#[test]
fn rejects_right_overflow() {
    let board = Board::default();
    let piece = ActivePiece::new(TetrominoKind::T, Coord::new(8, 10));
    assert!(!can_place(&piece, &board));
}

#[test]
fn rejects_bottom_overflow() {
    let board = Board::default();
    let piece = ActivePiece::new(TetrominoKind::T, Coord::new(4, -2));
    assert!(!can_place(&piece, &board));
}

#[test]
fn allows_blocks_above_visible_playfield() {
    let board = Board::default();
    let mut piece = ActivePiece::new(TetrominoKind::I, Coord::new(3, 18));
    piece.rotation = Rotation::East;
    assert!(can_place(&piece, &board));
}

#[test]
fn rejects_overlap_with_locked_cell() {
    let mut board = Board::default();
    let piece = ActivePiece::new(TetrominoKind::T, Coord::new(4, 0));
    board.set(5, 1, TetrominoKind::S);
    assert!(!can_place(&piece, &board));
}

#[test]
fn allows_piece_resting_directly_on_locked_cell() {
    let mut board = Board::default();
    for x in 0..BOARD_WIDTH as i32 {
        board.set(x, 0, TetrominoKind::I);
    }
    let piece = ActivePiece::new(TetrominoKind::T, Coord::new(4, 1));
    assert!(can_place(&piece, &board));
}

#[test]
fn hard_drop_lands_piece_on_floor_on_empty_board() {
    let board = Board::default();
    let piece = ActivePiece::new(TetrominoKind::T, Coord::new(4, 18));
    let landed = hard_drop(&piece, &board);
    assert_eq!(landed.grid_position, Coord::new(4, -1));
    assert!(can_place(&landed, &board));
}

#[test]
fn hard_drop_stacks_on_locked_row() {
    let mut board = Board::default();
    for x in 0..BOARD_WIDTH as i32 {
        board.set(x, 0, TetrominoKind::I);
    }
    let piece = ActivePiece::new(TetrominoKind::T, Coord::new(4, 18));
    let landed = hard_drop(&piece, &board);
    assert_eq!(landed.grid_position, Coord::new(4, 0));
}

#[test]
fn second_hard_drop_does_not_move() {
    let mut board = Board::default();
    board.set(4, 6, TetrominoKind::Z);
    let piece = ActivePiece::new(TetrominoKind::O, Coord::new(3, 17));
    let landed = hard_drop(&piece, &board);
    assert_eq!(landed.grid_position, Coord::new(3, 6));
    assert_eq!(hard_drop(&landed, &board), landed);
}

#[test]
fn hard_drop_of_blocked_piece_stays_put() {
    let board = Board::default();
    let piece = ActivePiece::new(TetrominoKind::T, Coord::new(4, -1));
    assert_eq!(hard_drop(&piece, &board), piece);
}

// ---- ghost ----

#[test]
fn projection_lands_on_floor_on_empty_board() {
    let board = Board::default();
    let piece = ActivePiece::new(TetrominoKind::T, Coord::new(4, 18));
    let ghost = projected_piece(&piece, &board);
    assert_eq!(ghost.grid_position, Coord::new(4, -1));
}

#[test]
fn projection_does_not_mutate_the_input() {
    let board = Board::default();
    let piece = ActivePiece::new(TetrominoKind::S, Coord::new(3, 15));
    let original = piece;
    let _ = projected_piece(&piece, &board);
    assert_eq!(piece.grid_position, original.grid_position);
    assert_eq!(piece.rotation, original.rotation);
}

#[test]
fn projection_stacks_on_locked_cells() {
    let mut board = Board::default();
    for x in 0..BOARD_WIDTH as i32 {
        board.set(x, 0, TetrominoKind::I);
    }
    let piece = ActivePiece::new(TetrominoKind::T, Coord::new(4, 18));
    let ghost = projected_piece(&piece, &board);
    assert_eq!(ghost.grid_position, Coord::new(4, 0));
}

// ---- gravity ----

#[test]
fn steps_down_on_empty_board() {
    let board = Board::default();
    let mut piece = ActivePiece::new(TetrominoKind::T, Coord::new(4, 10));
    let advanced = try_step_down(&mut piece, &board);
    assert!(advanced);
    assert_eq!(piece.grid_position.y, 9);
}

#[test]
fn holds_on_floor() {
    let board = Board::default();
    let mut piece = ActivePiece::new(TetrominoKind::T, Coord::new(4, -1));
    let advanced = try_step_down(&mut piece, &board);
    assert!(!advanced);
    assert_eq!(piece.grid_position.y, -1);
}

#[test]
fn holds_on_locked_stack() {
    let mut board = Board::default();
    for x in 0..BOARD_WIDTH as i32 {
        board.set(x, 5, TetrominoKind::I);
    }
    let mut piece = ActivePiece::new(TetrominoKind::T, Coord::new(4, 5));
    let advanced = try_step_down(&mut piece, &board);
    assert!(!advanced);
    assert_eq!(piece.grid_position.y, 5);
}

#[test]
fn gravity_interval_level_one_is_starting_speed() {
    assert_eq!(gravity_interval_for(1), Duration::from_millis(800));
}

#[test]
fn gravity_interval_level_ten_matches_table() {
    assert_eq!(gravity_interval_for(10), Duration::from_millis(100));
}

#[test]
fn gravity_interval_past_table_clamps_to_fastest() {
    assert_eq!(gravity_interval_for(20), Duration::from_millis(30));
    assert_eq!(gravity_interval_for(99), Duration::from_millis(30));
}

#[test]
fn gravity_interval_level_zero_does_not_panic_and_uses_level_one() {
    assert_eq!(gravity_interval_for(0), Duration::from_millis(800));
}

#[test]
fn gravity_interval_never_slows_down() {
    let mut previous = gravity_interval_for(0);
    for level in 1..40 {
        let current = gravity_interval_for(level);
        assert!(current <= previous);
        previous = current;
    }
    assert_eq!(gravity_interval_for(u32::MAX), Duration::from_millis(30));
    assert_eq!(gravity_interval_for(14), Duration::from_millis(70));
}

#[test]
fn gravity_ticks_move_down_without_locking() {
    let mut board = Board::default();
    let mut bag = SevenBag::from_seed(2);
    let mut piece = ActivePiece::new(TetrominoKind::T, Coord::new(4, 10));
    let res = apply_gravity_ticks(&mut piece, &mut board, &mut bag, 3);
    assert!(res.is_none());
    assert_eq!(piece.grid_position, Coord::new(4, 7));
    assert_eq!(occupied(&board), 0);
}

#[test]
fn gravity_ticks_lock_on_floor_and_spawn_next() {
    let mut board = Board::default();
    let mut bag = SevenBag::from_seed(2);
    let upcoming = bag.peek(1)[0];
    let mut piece = ActivePiece::new(TetrominoKind::T, Coord::new(4, 1));
    let res = apply_gravity_ticks(&mut piece, &mut board, &mut bag, 5);
    match res {
        Some(LockResolution::Locked(outcome)) => {
            assert_eq!(outcome.lines_cleared, 0);
            assert!(!outcome.topped_out);
        }
        other => panic!("expected a plain lock, got {:?}", other),
    }
    assert_eq!(board.get(4, 0), Some(TetrominoKind::T));
    assert_eq!(board.get(5, 1), Some(TetrominoKind::T));
    assert_eq!(piece.kind, upcoming);
    assert_eq!(piece.grid_position, upcoming.spawn_origin());
}

#[test]
fn resolve_lock_defers_completed_rows() {
    let mut board = Board::default();
    for x in 0..BOARD_WIDTH as i32 {
        if x != 5 {
            board.set(x, 0, TetrominoKind::I);
        }
    }
    let mut piece = ActivePiece::new(TetrominoKind::I, Coord::new(3, 0));
    piece.rotation = Rotation::East;
    let before = piece;
    let mut bag = SevenBag::from_seed(8);
    let queued = bag.peek(3);
    match resolve_lock(&mut piece, &mut board, &mut bag) {
        LockResolution::PendingClear(rows) => {
            assert_eq!(rows, [Some(0), None, None, None]);
        }
        other => panic!("expected a pending clear, got {:?}", other),
    }
    assert_eq!(piece, before);
    assert_eq!(bag.peek(3), queued);
    // Row 0 is still full: the clear waits for the delay.
    assert!(board.get(0, 0).is_some());

    let (next, outcome) = finish_line_clear(&mut board, &mut bag, &[Some(0), None, None, None]);
    assert_eq!(outcome.lines_cleared, 1);
    assert_eq!(outcome.cleared_rows, [Some(0), None, None, None]);
    assert_eq!(next.kind, queued[0]);
    assert!(board.is_empty_at(0, 0));
    assert_eq!(board.get(5, 0), Some(TetrominoKind::I));
}

// ---- grid ----

#[test]
fn in_bounds_rejects_negative_and_oversize() {
    assert!(Board::in_bounds(0, 0));
    assert!(Board::in_bounds(9, 19));
    assert!(!Board::in_bounds(-1, 0));
    assert!(!Board::in_bounds(0, -1));
    assert!(!Board::in_bounds(10, 0));
    assert!(!Board::in_bounds(0, 20));
}

#[test]
fn set_and_get_roundtrip() {
    let mut board = Board::default();
    assert!(board.is_empty_at(3, 4));

    board.set(3, 4, TetrominoKind::T);
    assert_eq!(board.get(3, 4), Some(TetrominoKind::T));
    assert!(!board.is_empty_at(3, 4));

    board.clear_cell(3, 4);
    assert!(board.is_empty_at(3, 4));
}

#[test]
fn out_of_bounds_set_is_ignored() {
    let mut board = Board::default();
    board.set(-1, 0, TetrominoKind::I);
    board.set(0, 20, TetrominoKind::I);
    assert!(board.cells.iter().flatten().all(|c| c.is_none()));
}

#[test]
fn reset_clears_every_cell() {
    let mut board = Board::default();
    fill_row(&mut board, 3, TetrominoKind::O);
    board.set(9, 19, TetrominoKind::J);
    board.reset();
    assert_eq!(occupied(&board), 0);
    assert_eq!(board.get(-5, 100), None);
}

// ---- lines ----

#[test]
fn no_full_rows_clears_nothing() {
    let mut board = Board::default();
    board.set(0, 0, TetrominoKind::I);
    board.set(1, 0, TetrominoKind::I);
    assert_eq!(clear_full_lines(&mut board), 0);
    assert_eq!(board.get(0, 0), Some(TetrominoKind::I));
    assert_eq!(board.get(1, 0), Some(TetrominoKind::I));
}

#[test]
fn single_full_row_is_cleared_and_stack_drops() {
    let mut board = Board::default();
    fill_row(&mut board, 0, TetrominoKind::I);
    board.set(3, 1, TetrominoKind::T);

    assert_eq!(clear_full_lines(&mut board), 1);

    for x in 0..BOARD_WIDTH as i32 {
        assert!(board.is_empty_at(x, 1));
    }
    assert_eq!(board.get(3, 0), Some(TetrominoKind::T));
}

#[test]
fn multiple_full_rows_clear_in_one_pass() {
    let mut board = Board::default();
    fill_row(&mut board, 0, TetrominoKind::I);
    fill_row(&mut board, 1, TetrominoKind::I);
    fill_row(&mut board, 2, TetrominoKind::I);
    fill_row(&mut board, 3, TetrominoKind::I);
    board.set(7, 4, TetrominoKind::S);

    assert_eq!(clear_full_lines(&mut board), 4);

    assert_eq!(board.get(7, 0), Some(TetrominoKind::S));
    for y in 1..BOARD_HEIGHT as i32 {
        for x in 0..BOARD_WIDTH as i32 {
            assert!(board.is_empty_at(x, y));
        }
    }
}

#[test]
fn clears_non_contiguous_rows() {
    let mut board = Board::default();
    fill_row(&mut board, 0, TetrominoKind::I);
    board.set(2, 1, TetrominoKind::Z);
    fill_row(&mut board, 3, TetrominoKind::I);
    board.set(8, 4, TetrominoKind::L);

    assert_eq!(clear_full_lines(&mut board), 2);
    assert_eq!(board.get(2, 0), Some(TetrominoKind::Z));
    assert_eq!(board.get(8, 2), Some(TetrominoKind::L));
}

#[test]
fn detect_reports_rows_in_pre_clear_frame() {
    let mut board = Board::default();
    fill_row(&mut board, 0, TetrominoKind::I);
    fill_row(&mut board, 3, TetrominoKind::I);
    let rows = detect_full_rows(&board);
    assert_eq!(rows[0], Some(0));
    assert_eq!(rows[1], Some(3));
    assert_eq!(rows[2], None);
    assert_eq!(rows[3], None);
}

#[test]
fn clear_rows_from_detected_indices_matches_atomic_clear() {
    let mut board_a = Board::default();
    let mut board_b = Board::default();
    for (x, kind) in [
        (0, TetrominoKind::T),
        (2, TetrominoKind::Z),
        (8, TetrominoKind::L),
    ] {
        board_a.set(x, 4, kind);
        board_b.set(x, 4, kind);
    }
    fill_row(&mut board_a, 0, TetrominoKind::I);
    fill_row(&mut board_a, 3, TetrominoKind::I);
    fill_row(&mut board_b, 0, TetrominoKind::I);
    fill_row(&mut board_b, 3, TetrominoKind::I);

    let rows = detect_full_rows(&board_a);
    let count_split = clear_rows(&mut board_a, &rows);
    let count_atomic = clear_full_lines(&mut board_b);

    assert_eq!(count_split, count_atomic);
    assert_eq!(board_a.cells, board_b.cells);
}

#[test]
fn detect_stops_at_four_rows() {
    let mut board = Board::default();
    for y in [1, 2, 5, 6, 9] {
        fill_row(&mut board, y, TetrominoKind::O);
    }
    assert_eq!(detect_full_rows(&board), [Some(1), Some(2), Some(5), Some(6)]);
    assert_eq!(clear_full_lines(&mut board), 4);
    // The fifth full row (old row 9) drops to row 5 and stays full.
    assert_eq!(detect_full_rows(&board), [Some(5), None, None, None]);
}

#[test]
fn clear_rows_counts_each_listed_row_once_and_ignores_out_of_range() {
    let mut board = Board::default();
    board.set(0, 0, TetrominoKind::T);
    board.set(0, 2, TetrominoKind::J);
    let cleared = clear_rows(&mut board, &[Some(0), Some(0), Some(200), None]);
    assert_eq!(cleared, 1);
    assert_eq!(board.get(0, 1), Some(TetrominoKind::J));
    assert_eq!(occupied(&board), 1);
}

// ---- lock ----

#[test]
fn lock_writes_each_block_into_the_board() {
    let mut board = Board::default();
    let piece = ActivePiece::new(TetrominoKind::T, Coord::new(4, 0));
    lock_piece(&mut board, &piece);

    assert_eq!(board.get(4, 1), Some(TetrominoKind::T));
    assert_eq!(board.get(5, 1), Some(TetrominoKind::T));
    assert_eq!(board.get(6, 1), Some(TetrominoKind::T));
    assert_eq!(board.get(5, 2), Some(TetrominoKind::T));
    assert_eq!(occupied(&board), 4);
}

#[test]
fn lock_ignores_blocks_above_the_visible_playfield() {
    let mut board = Board::default();
    let piece = ActivePiece::new(TetrominoKind::T, Coord::new(3, 19));
    lock_piece(&mut board, &piece);
    assert!(board.cells.iter().flatten().all(|c| c.is_none()));
}

#[test]
fn stamp_lock_reports_cleared_rows_without_clearing() {
    let mut board = Board::default();
    for x in 0..BOARD_WIDTH as i32 {
        if x != 5 {
            board.set(x, 0, TetrominoKind::I);
        }
    }
    let mut piece = ActivePiece::new(TetrominoKind::I, Coord::new(3, 0));
    piece.rotation = Rotation::East;

    let rows = stamp_lock(&mut board, &piece);
    assert_eq!(rows[0], Some(0));
    assert_eq!(rows[1], None);
    for x in 0..BOARD_WIDTH as i32 {
        assert!(board.get(x, 0).is_some());
    }
}

#[test]
fn finalize_lock_flags_top_out_when_stack_blocks_spawn_columns() {
    let mut board = Board::default();
    for x in 3..=6 {
        board.set(x, 19, TetrominoKind::I);
    }
    let mut piece = ActivePiece::new(TetrominoKind::O, Coord::new(0, 0));
    let mut bag = SevenBag::from_seed(0);

    let outcome = finalize_lock(&mut piece, &mut board, &mut bag);

    assert!(outcome.topped_out);
}

#[test]
fn finalize_lock_clears_a_full_row_and_spawns_next() {
    let mut board = Board::default();
    for x in 0..BOARD_WIDTH as i32 {
        if x != 5 {
            board.set(x, 0, TetrominoKind::I);
        }
    }
    let mut piece = ActivePiece::new(TetrominoKind::I, Coord::new(3, 0));
    piece.rotation = Rotation::East;
    let mut bag = SevenBag::from_seed(1);

    let outcome = finalize_lock(&mut piece, &mut board, &mut bag);

    assert_eq!(outcome.lines_cleared, 1);
    assert_eq!(outcome.cleared_rows[0], Some(0));
    assert!(!outcome.topped_out);
    assert_eq!(board.get(5, 0), Some(TetrominoKind::I));
    assert_eq!(board.get(5, 1), Some(TetrominoKind::I));
    assert_eq!(board.get(5, 2), Some(TetrominoKind::I));
    assert!(board.is_empty_at(5, 3));
    assert!(board.is_empty_at(0, 0));
    assert_eq!(piece.rotation, Rotation::North);
}

// ---- rotation ----

#[test]
fn in_place_rotation_on_empty_board() {
    let board = Board::default();
    let piece = ActivePiece::new(TetrominoKind::T, Coord::new(4, 10));
    let rotated = try_rotate(piece, RotationDirection::Clockwise, &board, WallKickMode::Srs);
    assert_eq!(rotated.rotation, Rotation::East);
    assert_eq!(rotated.grid_position, piece.grid_position);
}

#[test]
fn srs_kick_recovers_rotation_against_left_wall() {
    let board = Board::default();
    let mut piece = ActivePiece::new(TetrominoKind::T, Coord::new(-1, 10));
    piece.rotation = Rotation::East;
    let rotated = try_rotate(piece, RotationDirection::Clockwise, &board, WallKickMode::Srs);
    assert_eq!(rotated.rotation, Rotation::South);
    assert_ne!(rotated.grid_position, piece.grid_position);
}

#[test]
fn srs_kick_uses_first_fitting_offset() {
    let board = Board::default();
    let mut piece = ActivePiece::new(TetrominoKind::T, Coord::new(-1, 10));
    piece.rotation = Rotation::East;
    let rotated = try_rotate(piece, RotationDirection::Clockwise, &board, WallKickMode::Srs);
    // E->S kicks: (0,0) fails, (1,0) fits.
    assert_eq!(rotated.grid_position, Coord::new(0, 10));
}

#[test]
fn off_mode_rejects_rotation_against_wall() {
    let board = Board::default();
    let mut piece = ActivePiece::new(TetrominoKind::T, Coord::new(-1, 10));
    piece.rotation = Rotation::East;
    let rotated = try_rotate(piece, RotationDirection::Clockwise, &board, WallKickMode::Off);
    assert_eq!(rotated.rotation, Rotation::East);
    assert_eq!(rotated.grid_position, piece.grid_position);
}

#[test]
fn no_valid_kick_keeps_piece_unchanged() {
    let mut board = Board::default();
    for y in 0..20 {
        for x in 0..BOARD_WIDTH as i32 {
            board.set(x, y, TetrominoKind::I);
        }
    }
    for block in ActivePiece::new(TetrominoKind::T, Coord::new(4, 10)).blocks() {
        board.clear_cell(block.x, block.y);
    }
    let piece = ActivePiece::new(TetrominoKind::T, Coord::new(4, 10));
    let rotated = try_rotate(piece, RotationDirection::Clockwise, &board, WallKickMode::Srs);
    assert_eq!(rotated.rotation, piece.rotation);
    assert_eq!(rotated.grid_position, piece.grid_position);
}

#[test]
fn rotation_never_leaves_a_fitting_piece_overlapping() {
    let mut board = Board::default();
    fill_row(&mut board, 0, TetrominoKind::Z);
    board.set(2, 3, TetrominoKind::J);
    board.set(6, 5, TetrominoKind::L);
    for kind in TetrominoKind::ALL {
        for x in -2..9 {
            for y in -1..8 {
                let piece = ActivePiece::new(kind, Coord::new(x, y));
                if !can_place(&piece, &board) {
                    continue;
                }
                for dir in [RotationDirection::Clockwise, RotationDirection::CounterClockwise] {
                    for mode in [WallKickMode::Off, WallKickMode::Srs] {
                        let r = try_rotate(piece, dir, &board, mode);
                        assert!(can_place(&r, &board));
                        assert_eq!(r.kind, kind);
                    }
                }
            }
        }
    }
}

#[test]
fn lock_keeps_existing_cells() {
    let mut board = Board::default();
    board.set(0, 0, TetrominoKind::Z);
    board.set(9, 4, TetrominoKind::L);
    let piece = ActivePiece::new(TetrominoKind::O, Coord::new(3, 0));
    assert!(can_place(&piece, &board));
    lock_piece(&mut board, &piece);
    assert_eq!(board.get(0, 0), Some(TetrominoKind::Z));
    assert_eq!(board.get(9, 4), Some(TetrominoKind::L));
    assert_eq!(board.get(4, 1), Some(TetrominoKind::O));
    assert_eq!(occupied(&board), 6);
}

#[test]
fn ghost_matches_hard_drop_everywhere() {
    let mut board = Board::default();
    board.set(1, 2, TetrominoKind::T);
    board.set(6, 9, TetrominoKind::S);
    for kind in TetrominoKind::ALL {
        for x in -1..8 {
            let piece = ActivePiece::new(kind, Coord::new(x, 16));
            let ghost = projected_piece(&piece, &board);
            assert_eq!(ghost, hard_drop(&piece, &board));
            assert_eq!(ghost.kind, kind);
            assert_eq!(ghost.grid_position.x, x);
        }
    }
}

#[test]
fn rejects_blocks_above_the_spawn_buffer() {
    let board = Board::default();
    // T North at (4, 30) has blocks on rows 31 and 32, far above the buffer.
    assert!(!can_place(&ActivePiece::new(TetrominoKind::T, Coord::new(4, 30)), &board));
    // At (4, 21) its top block is on row 23, the highest buffer row.
    assert!(can_place(&ActivePiece::new(TetrominoKind::T, Coord::new(4, 21)), &board));
    // One row higher, the top block would be on row 24.
    assert!(!can_place(&ActivePiece::new(TetrominoKind::T, Coord::new(4, 22)), &board));
}
