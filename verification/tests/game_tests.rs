use blockvy::audio::{PlaySfx, level_up_sfx, lock_sfx};
use blockvy::board::{Board, LockOutcome, LockResolution};
use blockvy::game::state::{
    MenuCommand, MenuKeys, Transition, check_game_over, keyboard_command, start_run, transition,
};
use blockvy::game::{GameRules, GameState, OptionsToggle, Score};
use blockvy::input::{
    PiecePresses, handle_presses,
    AutoshiftInput, AutoshiftPhase, InputTiming, autoshift_phase, hard_drop_and_lock,
    shift_horizontally, soft_drop,
};
use blockvy::board::ActivePiece;
use blockvy::pieces::{Rotation, SevenBag, TetrominoKind, WallKickMode, blocks_for};
use blockvy::ui::{BlockLayer, bounding_box, board_scene};
use blockvy::Coord;

// ---- score ----

#[test]
fn starts_at_zero_level_one() {
    let s = Score::default();
    assert_eq!(s.value, 0);
    assert_eq!(s.lines_cleared, 0);
    assert_eq!(s.level, 1);
}

#[test]
fn zero_lines_changes_nothing() {
    let mut s = Score::default();
    s.award(0);
    assert_eq!(s.value, 0);
    assert_eq!(s.lines_cleared, 0);
}

#[test]
fn single_clear_uses_base_table_at_level_one() {
    let mut s = Score::default();
    s.award(1);
    assert_eq!(s.value, 100);
    s.award(2);
    assert_eq!(s.value, 400);
    s.award(3);
    assert_eq!(s.value, 900);
}

#[test]
fn tetris_at_level_one_awards_800() {
    let mut s = Score::default();
    s.award(4);
    assert_eq!(s.value, 800);
    assert_eq!(s.lines_cleared, 4);
}

#[test]
fn level_increments_every_ten_lines() {
    let mut s = Score::default();
    for _ in 0..9 {
        s.award(1);
    }
    assert_eq!(s.lines_cleared, 9);
    assert_eq!(s.level, 1);
    let before = s.value;
    s.award(1);
    assert_eq!(s.lines_cleared, 10);
    assert_eq!(s.level, 2);
    assert_eq!(s.value - before, 100);
}

#[test]
fn level_multiplier_scales_subsequent_clears() {
    let mut s = Score::default();
    s.level = 3;
    s.award(2);
    assert_eq!(s.value, 900);
}

#[test]
fn award_recomputes_level_from_lines() {
    let mut s = Score { value: 0, lines_cleared: 38, level: 7 };
    s.award(4);
    assert_eq!(s.value, 800 * 7);
    assert_eq!(s.lines_cleared, 42);
    assert_eq!(s.level, 5);
}

// ---- rules ----

#[test]
fn default_rules_match_base_ruleset() {
    let r = GameRules::default();
    assert!(r.hard_drop_enabled);
    assert!(!r.hold_enabled);
    assert!(r.ghost_enabled);
    assert_eq!(r.wall_kicks, WallKickMode::Srs);
}

#[test]
fn toggles_flip_one_value_each() {
    let mut r = GameRules::default();
    r.toggle(OptionsToggle::WallKicks);
    assert_eq!(r.wall_kicks, WallKickMode::Off);
    r.toggle(OptionsToggle::Hold);
    assert!(r.hold_enabled);
    r.toggle(OptionsToggle::GhostPiece);
    assert!(!r.ghost_enabled);
    r.toggle(OptionsToggle::HardDrop);
    assert!(!r.hard_drop_enabled);
    for t in [
        OptionsToggle::WallKicks,
        OptionsToggle::Hold,
        OptionsToggle::GhostPiece,
        OptionsToggle::HardDrop,
    ] {
        r.toggle(t);
    }
    assert_eq!(r, GameRules::default());
}

#[test]
fn input_timing_defaults() {
    let t = InputTiming::default();
    assert_eq!((t.das_ms, t.arr_ms, t.soft_drop_ms), (170, 50, 50));
}

// ---- state machine ----

#[test]
fn state_transitions_follow_the_diagram() {
    assert_eq!(
        transition(GameState::Home, MenuCommand::Start),
        Transition::Go { to: GameState::Playing, resume: false }
    );
    assert_eq!(
        transition(GameState::Home, MenuCommand::OpenOptions),
        Transition::Go { to: GameState::Options, resume: false }
    );
    assert_eq!(transition(GameState::Home, MenuCommand::Quit), Transition::Exit);
    assert_eq!(
        transition(GameState::Options, MenuCommand::Back),
        Transition::Go { to: GameState::Home, resume: false }
    );
    assert_eq!(
        transition(GameState::Playing, MenuCommand::Pause),
        Transition::Go { to: GameState::Paused, resume: false }
    );
    assert_eq!(
        transition(GameState::Paused, MenuCommand::Resume),
        Transition::Go { to: GameState::Playing, resume: true }
    );
    assert_eq!(
        transition(GameState::Paused, MenuCommand::Restart),
        Transition::Go { to: GameState::Playing, resume: false }
    );
    assert_eq!(
        transition(GameState::Playing, MenuCommand::TopOut),
        Transition::Go { to: GameState::GameOver, resume: false }
    );
    assert_eq!(
        transition(GameState::GameOver, MenuCommand::GoHome),
        Transition::Go { to: GameState::Home, resume: false }
    );
    assert_eq!(transition(GameState::GameOver, MenuCommand::Pause), Transition::Stay);
    assert_eq!(transition(GameState::Home, MenuCommand::TopOut), Transition::Stay);
}

#[test]
fn keyboard_priorities_per_screen() {
    let keys = MenuKeys { escape: true, r: true, ..Default::default() };
    assert_eq!(keyboard_command(GameState::GameOver, keys), Some(MenuCommand::Restart));
    assert_eq!(keyboard_command(GameState::Paused, keys), Some(MenuCommand::Resume));
    let h = MenuKeys { h: true, ..Default::default() };
    assert_eq!(keyboard_command(GameState::Paused, h), Some(MenuCommand::GoHome));
    let enter_esc = MenuKeys { enter: true, escape: true, ..Default::default() };
    assert_eq!(keyboard_command(GameState::Home, enter_esc), Some(MenuCommand::Start));
    let back = MenuKeys { backspace: true, ..Default::default() };
    assert_eq!(keyboard_command(GameState::Options, back), Some(MenuCommand::Back));
    assert_eq!(keyboard_command(GameState::Playing, back), None);
}

#[test]
fn game_over_only_while_playing() {
    assert!(check_game_over(GameState::Playing, &vec![false, true]));
    assert!(!check_game_over(GameState::Playing, &vec![false, false]));
    assert!(!check_game_over(GameState::Paused, &vec![true]));
    assert!(!check_game_over(GameState::Playing, &vec![]));
}

#[test]
fn start_run_resets_unless_resuming() {
    let mut board = Board::default();
    board.set(1, 1, TetrominoKind::S);
    let mut bag = SevenBag::from_seed(4);
    let mut score = Score { value: 500, lines_cleared: 3, level: 1 };

    let mut resume = true;
    assert!(start_run(&mut resume, &mut board, &mut bag, &mut score, SevenBag::from_seed(5)).is_none());
    assert!(!resume);
    assert_eq!(score.value, 500);
    assert_eq!(board.get(1, 1), Some(TetrominoKind::S));

    let mut expected = SevenBag::from_seed(6);
    let first = expected.next();
    let piece = start_run(&mut resume, &mut board, &mut bag, &mut score, SevenBag::from_seed(6)).unwrap();
    assert_eq!(piece.kind, first);
    assert_eq!(bag.peek(7), expected.peek(7));
    assert!(board.is_empty_at(1, 1));
    assert_eq!(score, Score::default());
    assert_eq!(piece.grid_position, piece.kind.spawn_origin());
    assert_eq!(piece.rotation, Rotation::North);
}

// ---- audio ----

#[test]
fn lock_sound_priorities() {
    let mut o = LockOutcome::default();
    assert_eq!(lock_sfx(&o), PlaySfx::Lock);
    o.lines_cleared = 2;
    assert_eq!(lock_sfx(&o), PlaySfx::LineClear);
    o.lines_cleared = 4;
    assert_eq!(lock_sfx(&o), PlaySfx::Tetris);
    o.topped_out = true;
    assert_eq!(lock_sfx(&o), PlaySfx::GameOver);
}

#[test]
fn level_up_sound_only_on_increase() {
    let mut previous = 0;
    assert!(!level_up_sfx(&mut previous, 1));
    assert_eq!(previous, 1);
    assert!(!level_up_sfx(&mut previous, 1));
    assert!(level_up_sfx(&mut previous, 2));
    assert!(!level_up_sfx(&mut previous, 1));
    assert_eq!(previous, 1);
}

// ---- input ----

#[test]
fn autoshift_press_and_hold_phases() {
    let right_just = AutoshiftInput { right_just: true, right_held: true, ..Default::default() };
    assert_eq!(autoshift_phase(right_just, 0), AutoshiftPhase::Press(1));
    let both_just = AutoshiftInput { left_just: true, right_just: true, ..Default::default() };
    assert_eq!(autoshift_phase(both_just, -1), AutoshiftPhase::Press(1));
    let hold_right = AutoshiftInput { right_held: true, ..Default::default() };
    assert_eq!(autoshift_phase(hold_right, 1), AutoshiftPhase::Hold);
    assert_eq!(autoshift_phase(hold_right, -1), AutoshiftPhase::Release);
    let both_held = AutoshiftInput { left_held: true, right_held: true, ..Default::default() };
    assert_eq!(autoshift_phase(both_held, 1), AutoshiftPhase::Release);
    assert_eq!(autoshift_phase(AutoshiftInput::default(), 0), AutoshiftPhase::Release);
}

#[test]
fn horizontal_shift_stops_at_wall() {
    let board = Board::default();
    let mut piece = ActivePiece::new(TetrominoKind::T, Coord::new(4, 10));
    shift_horizontally(&mut piece, &board, 10);
    assert_eq!(piece.grid_position, Coord::new(7, 10));
    shift_horizontally(&mut piece, &board, -2);
    assert_eq!(piece.grid_position, Coord::new(5, 10));
    shift_horizontally(&mut piece, &board, 0);
    assert_eq!(piece.grid_position, Coord::new(5, 10));
}

#[test]
fn soft_drop_stops_at_floor() {
    let board = Board::default();
    let mut piece = ActivePiece::new(TetrominoKind::T, Coord::new(4, 2));
    soft_drop(&mut piece, &board, 2);
    assert_eq!(piece.grid_position, Coord::new(4, 0));
    soft_drop(&mut piece, &board, 5);
    assert_eq!(piece.grid_position, Coord::new(4, -1));
}

#[test]
fn hard_drop_locks_at_rest_and_spawns_next() {
    let mut board = Board::default();
    let mut bag = SevenBag::from_seed(11);
    let next = bag.peek(1)[0];
    let mut piece = ActivePiece::new(TetrominoKind::O, Coord::new(3, 15));
    let outcome = match hard_drop_and_lock(&mut piece, &mut board, &mut bag) {
        LockResolution::Locked(outcome) => outcome,
        LockResolution::PendingClear(_) => panic!("no row was completed"),
    };
    assert_eq!(outcome.lines_cleared, 0);
    assert_eq!(board.get(4, 0), Some(TetrominoKind::O));
    assert_eq!(board.get(5, 1), Some(TetrominoKind::O));
    assert_eq!(piece.kind, next);
}

// ---- preview ----

#[test]
fn bounding_box_for_t_north_is_3x2() {
    let blocks = blocks_for(TetrominoKind::T, Rotation::North);
    let (min_x, max_x, min_y, max_y) = bounding_box(&blocks);
    assert_eq!(max_x - min_x + 1, 3);
    assert_eq!(max_y - min_y + 1, 2);
}

#[test]
fn bounding_box_for_i_north_is_4x1() {
    let blocks = blocks_for(TetrominoKind::I, Rotation::North);
    let (min_x, max_x, min_y, max_y) = bounding_box(&blocks);
    assert_eq!(max_x - min_x + 1, 4);
    assert_eq!(max_y - min_y + 1, 1);
}

#[test]
fn bounding_box_for_o_is_2x2() {
    let blocks = blocks_for(TetrominoKind::O, Rotation::North);
    let (min_x, max_x, min_y, max_y) = bounding_box(&blocks);
    assert_eq!(max_x - min_x + 1, 2);
    assert_eq!(max_y - min_y + 1, 2);
}

#[test]
fn bounding_box_exact_extent() {
    let blocks = [
        Coord::new(3, -2),
        Coord::new(-1, 5),
        Coord::new(0, 0),
        Coord::new(2, 7),
    ];
    assert_eq!(bounding_box(&blocks), (-1, 3, -2, 7));
}

#[test]
fn presses_rotate_then_hard_drop() {
    let mut board = Board::default();
    let mut bag = SevenBag::from_seed(9);
    let rules = GameRules::default();
    let mut piece = ActivePiece::new(TetrominoKind::T, Coord::new(4, 10));
    let fx = handle_presses(
        &mut piece,
        &mut board,
        &mut bag,
        &rules,
        PiecePresses { rotate_clockwise: true, ..Default::default() },
    );
    assert!(fx.rotated_clockwise && !fx.rotated_counter_clockwise && fx.hard_drop.is_none());
    assert_eq!(piece.rotation, Rotation::East);

    let mut no_hard_drop = rules;
    no_hard_drop.toggle(OptionsToggle::HardDrop);
    let fx = handle_presses(
        &mut piece,
        &mut board,
        &mut bag,
        &no_hard_drop,
        PiecePresses { hard_drop: true, ..Default::default() },
    );
    assert!(fx.hard_drop.is_none());
    assert_eq!(piece.grid_position, Coord::new(4, 10));

    let fx = handle_presses(
        &mut piece,
        &mut board,
        &mut bag,
        &rules,
        PiecePresses { hard_drop: true, ..Default::default() },
    );
    let outcome = match fx.hard_drop.expect("hard drop locks") {
        LockResolution::Locked(outcome) => outcome,
        LockResolution::PendingClear(_) => panic!("no row was completed"),
    };
    assert_eq!(outcome.lines_cleared, 0);
    // T East rests with its stem on the floor: cells (5,0), (5,1), (5,2), (6,1).
    assert_eq!(board.get(5, 0), Some(TetrominoKind::T));
    assert_eq!(board.get(6, 1), Some(TetrominoKind::T));
    assert_eq!(piece.rotation, Rotation::North);
}

#[test]
fn hard_drop_that_completes_a_row_waits_for_the_clear_delay() {
    let mut board = Board::default();
    for x in 0..10 {
        if x != 4 && x != 5 {
            board.set(x, 0, TetrominoKind::J);
        }
    }
    let mut bag = SevenBag::from_seed(11);
    let queued = bag.peek(3);
    let mut piece = ActivePiece::new(TetrominoKind::O, Coord::new(3, 15));
    let rows = match hard_drop_and_lock(&mut piece, &mut board, &mut bag) {
        LockResolution::PendingClear(rows) => rows,
        LockResolution::Locked(_) => panic!("the bottom row was completed"),
    };
    assert_eq!(rows, [Some(0), None, None, None]);
    // The completed row is still on the board, the piece and the bag untouched.
    assert_eq!(board.get(4, 0), Some(TetrominoKind::O));
    assert_eq!(board.get(0, 0), Some(TetrominoKind::J));
    assert_eq!(piece.grid_position, Coord::new(3, -1));
    assert_eq!(bag.peek(3), queued);
}

#[test]
fn can_award_guards_the_counters() {
    let s = Score { value: 0, lines_cleared: 0, level: 1 };
    assert!(s.can_award(0) && s.can_award(4));
    let near = Score { value: u32::MAX - 800, lines_cleared: 5, level: 1 };
    assert!(near.can_award(4));
    assert!(!Score { value: u32::MAX - 799, ..near }.can_award(4));
    assert!(!Score { value: u32::MAX - 99, lines_cleared: 0, level: 2 }.can_award(1));
    assert!(!Score { value: 0, lines_cleared: u32::MAX, level: 1 }.can_award(1));
    assert!(Score { value: 5, lines_cleared: u32::MAX, level: 1 }.can_award(0));
}

#[test]
fn scene_lists_locked_then_ghost_then_piece() {
    let mut board = Board::default();
    board.set(9, 0, TetrominoKind::Z);
    board.set(0, 1, TetrominoKind::L);
    assert!(board_scene(&board, None, true).iter().map(|b| (b.at, b.layer)).eq([
        (Coord::new(9, 0), BlockLayer::Locked),
        (Coord::new(0, 1), BlockLayer::Locked),
    ]));

    // An O in the air: its ghost rests on the floor, two columns left of the Z.
    let piece = ActivePiece::new(TetrominoKind::O, Coord::new(3, 10));
    let scene = board_scene(&board, Some(piece), true);
    assert_eq!(scene.len(), 2 + 4 + 4);
    let shadow: Vec<Coord> = scene[2..6].iter().map(|b| b.at).collect();
    let mut expected_shadow: Vec<Coord> = piece.blocks().iter().map(|c| Coord::new(c.x, c.y - 11)).collect();
    expected_shadow.sort_by_key(|c| (c.y, c.x));
    let mut sorted_shadow = shadow.clone();
    sorted_shadow.sort_by_key(|c| (c.y, c.x));
    assert_eq!(sorted_shadow, expected_shadow);
    assert!(scene[2..6].iter().all(|b| b.layer == BlockLayer::Shadow && b.kind == TetrominoKind::O));
    assert!(scene[6..].iter().map(|b| b.at).eq(piece.blocks()));
    assert!(scene[6..].iter().all(|b| b.layer == BlockLayer::Active));

    // With the ghost switched off, only the locked cells and the piece.
    assert_eq!(board_scene(&board, Some(piece), false).len(), 2 + 4);

    // A grounded piece draws no ghost under itself.
    let grounded = ActivePiece::new(TetrominoKind::O, Coord::new(3, -1));
    assert_eq!(board_scene(&board, Some(grounded), true).len(), 2 + 4);
}
