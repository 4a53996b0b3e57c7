//! Which sound a gameplay event asks for. Playback itself belongs to the
//! application's audio layer.
use vstd::prelude::*;

use crate::board::LockOutcome;

verus! {

/// Discrete gameplay sounds.
#[derive(Debug, Clone, Copy, PartialEq, Eq, Structural)]
pub enum PlaySfx {
    Rotate,
    HardDrop,
    Lock,
    LineClear,
    Tetris,
    LevelUp,
    GameOver,
}

/// The one sound a lock asks for: top-out wins over any clear, a 4-line
/// clear beats a 1-3 line clear, which beats a plain lock.
pub open spec fn spec_lock_sfx(outcome: LockOutcome) -> PlaySfx {
    if outcome.topped_out {
        PlaySfx::GameOver
    } else if outcome.lines_cleared == 0 {
        PlaySfx::Lock
    } else if outcome.lines_cleared <= 3 {
        PlaySfx::LineClear
    } else {
        PlaySfx::Tetris
    }
}

/// Turns a lock outcome into exactly one sound.
pub fn lock_sfx(outcome: &LockOutcome) -> (sfx: PlaySfx)
    ensures
        sfx == spec_lock_sfx(*outcome),
{
    if outcome.topped_out {
        PlaySfx::GameOver
    } else {
        match outcome.lines_cleared {
            0 => PlaySfx::Lock,
            1..=3 => PlaySfx::LineClear,
            _ => PlaySfx::Tetris,
        }
    }
}

/// Tracks the level last seen in `previous` and reports whether the new
/// `level` is a level-up. The first observation (`previous == 0`) and a
/// drop back for a fresh run are silent.
pub fn level_up_sfx(previous: &mut u32, level: u32) -> (play: bool)
    ensures
        play == (level > *old(previous) && *old(previous) != 0),
        *final(previous) == level,
{
    if level == *previous {
        return false;
    }
    let play = level > *previous && *previous != 0;
    *previous = level;
    play
}

} // verus!
