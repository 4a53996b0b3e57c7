pub mod autoshift;
pub mod movement;
pub mod timing;

pub use autoshift::{AutoshiftInput, AutoshiftPhase, autoshift_phase};
pub use movement::{PiecePresses, PressEffects, handle_presses, hard_drop_and_lock, shift_horizontally, soft_drop};
pub use timing::InputTiming;
