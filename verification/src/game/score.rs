//! Score, line count and level progression.
//!
//! Points use the classic line-clear table multiplied by the current level.
use vstd::prelude::*;

verus! {

#[derive(Debug, Clone, Copy, PartialEq, Eq, Structural)]
pub struct Score {
    pub value: u32,
    pub lines_cleared: u32,
    pub level: u32,
}

/// Base points of a clear of `lines` rows (1 to 4+), before the level
/// multiplier.
pub open spec fn base_points(lines: u32) -> int {
    if lines == 1 {
        100
    } else if lines == 2 {
        300
    } else if lines == 3 {
        500
    } else {
        800
    }
}

/// The level reached after clearing `lines` rows in total.
pub open spec fn level_for_lines(lines: int) -> int {
    1 + lines / 10
}

/// `after` is `before` once a clear of `lines` rows has been awarded.
pub open spec fn awarded(before: Score, lines: u32, after: Score) -> bool {
    if lines == 0 {
        after == before
    } else {
        &&& after.value == before.value + base_points(lines) * before.level
        &&& after.lines_cleared == before.lines_cleared + lines
        &&& after.level == level_for_lines(after.lines_cleared as int)
    }
}

/// The award of `lines` rows keeps every counter within `u32`.
pub open spec fn award_fits(score: Score, lines: u32) -> bool {
    lines == 0 || (score.value + base_points(lines) * score.level <= u32::MAX
        && score.lines_cleared + lines <= u32::MAX)
}

impl Default for Score {
    fn default() -> (s: Score)
        ensures
            s == (Score { value: 0, lines_cleared: 0, level: 1 }),
    {
        Score { value: 0, lines_cleared: 0, level: 1 }
    }
}

impl Score {
    /// Whether awarding a clear of `lines` rows keeps every counter within
    /// `u32`, the condition under which `award` may be called.
    pub fn can_award(&self, lines: u32) -> (r: bool)
        ensures
            r == award_fits(*self, lines),
    {
        if lines == 0 {
            return true;
        }
        let base: u64 = if lines == 1 {
            100
        } else if lines == 2 {
            300
        } else if lines == 3 {
            500
        } else {
            800
        };
        proof {
            assert(base * self.level <= 800 * 0xffff_ffff) by (nonlinear_arith)
                requires
                    base <= 800,
                    self.level <= 0xffff_ffff,
            ;
        }
        let points: u64 = base * (self.level as u64);
        (self.value as u64) + points <= u32::MAX as u64 && (self.lines_cleared as u64) + (lines as u64)
            <= u32::MAX as u64
    }

    /// Awards points for the given number of lines and bumps the level once
    /// per 10 cleared lines. Points use the level at the moment of the clear,
    /// so the milestone clear that triggers a level-up still scores at the
    /// previous level multiplier.
    pub fn award(&mut self, lines_cleared: u32)
        requires
            award_fits(*old(self), lines_cleared),
        ensures
            awarded(*old(self), lines_cleared, *final(self)),
    {
        if lines_cleared == 0 {
            return;
        }
        let base: u32 = if lines_cleared == 1 {
            100
        } else if lines_cleared == 2 {
            300
        } else if lines_cleared == 3 {
            500
        } else {
            800
        };
        proof {
            assert(base * self.level <= u32::MAX) by (nonlinear_arith)
                requires
                    self.value + base * self.level <= u32::MAX,
                    self.value >= 0,
            ;
        }
        self.value = self.value + base * self.level;
        self.lines_cleared = self.lines_cleared + lines_cleared;
        self.level = 1 + self.lines_cleared / 10;
    }
}

/// Once the level tracks the line count, it keeps tracking it: after any
/// award the level is one more than the number of whole tens of lines.
pub proof fn lemma_award_keeps_level_in_step(before: Score, lines: u32, after: Score)
    requires
        before.level == level_for_lines(before.lines_cleared as int),
        awarded(before, lines, after),
    ensures
        after.level == level_for_lines(after.lines_cleared as int),
        after.lines_cleared >= before.lines_cleared,
        after.level >= before.level,
        after.value >= before.value,
{
    assert(before.lines_cleared / 10 <= after.lines_cleared / 10) by (nonlinear_arith)
        requires
            before.lines_cleared <= after.lines_cleared,
    ;
}

} // verus!
