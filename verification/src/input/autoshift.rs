//! The key-state part of the horizontal auto-shift (DAS / ARR): which
//! direction is active and whether this frame starts, continues or ends a
//! shift. The time accounting lives with the frame clock.
use vstd::prelude::*;

verus! {

#[derive(Default, Clone, Copy, Debug)]
pub struct AutoshiftInput {
    pub left_just: bool,
    pub right_just: bool,
    pub left_held: bool,
    pub right_held: bool,
}

/// What this frame's keys do to the auto-shift.
#[derive(Clone, Copy, Debug, PartialEq, Eq, Structural)]
pub enum AutoshiftPhase {
    /// A direction was just pressed (the newest press wins, right over left
    /// on the same frame): shift once now and restart the DAS wait.
    Press(i32),
    /// The active direction is still the only one held: keep accumulating.
    Hold,
    /// Nothing, both, or a different direction is held: reset.
    Release,
}

/// The direction held alone: -1 for left, +1 for right, 0 otherwise.
pub open spec fn held_direction(input: AutoshiftInput) -> int {
    if input.left_held && !input.right_held {
        -1
    } else if !input.left_held && input.right_held {
        1
    } else {
        0
    }
}

/// The phase for `input` when `direction` (-1, 0 or +1) is active.
pub open spec fn spec_autoshift_phase(input: AutoshiftInput, direction: i32) -> AutoshiftPhase {
    if input.right_just {
        AutoshiftPhase::Press(1i32)
    } else if input.left_just {
        AutoshiftPhase::Press(-1i32)
    } else if held_direction(input) == 0 || held_direction(input) != direction {
        AutoshiftPhase::Release
    } else {
        AutoshiftPhase::Hold
    }
}

pub fn autoshift_phase(input: AutoshiftInput, direction: i32) -> (p: AutoshiftPhase)
    ensures
        p == spec_autoshift_phase(input, direction),
{
    if input.right_just || input.left_just {
        return AutoshiftPhase::Press(if input.right_just { 1 } else { -1 });
    }
    let held: i32 = match (input.left_held, input.right_held) {
        (true, false) => -1,
        (false, true) => 1,
        _ => 0,
    };
    if held == 0 || held != direction {
        AutoshiftPhase::Release
    } else {
        AutoshiftPhase::Hold
    }
}

} // verus!
