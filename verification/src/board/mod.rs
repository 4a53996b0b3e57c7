pub mod active_piece;
pub mod clear_delay;
pub mod collision;
pub mod ghost;
pub mod gravity;
pub mod grid;
pub mod lines;
pub mod lock;
pub mod rotation;

pub use active_piece::ActivePiece;
pub use collision::{can_place, hard_drop};
pub use ghost::projected_piece;
pub use grid::{BOARD_BUFFER_HEIGHT, BOARD_HEIGHT, BOARD_VISIBLE_HEIGHT, BOARD_WIDTH, Board};
pub use gravity::{LockResolution, apply_gravity_ticks, gravity_interval_for, resolve_lock, try_step_down};
pub use lines::{ClearedRows, clear_full_lines, clear_rows, detect_full_rows};
pub use lock::{LockOutcome, draw_next_piece, finalize_lock, lock_piece, stamp_lock};
pub use rotation::try_rotate;
pub use clear_delay::finish_line_clear;
