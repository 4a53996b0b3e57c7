use vstd::prelude::*;

use crate::pieces::WallKickMode;

verus! {

/// Game-wide rule toggles. Defaults match the base ruleset:
/// hard drop on, hold off, ghost piece on, SRS wall kicks.
#[derive(Clone, Copy, Debug, PartialEq, Eq, Structural)]
pub struct GameRules {
    pub hard_drop_enabled: bool,
    pub hold_enabled: bool,
    pub ghost_enabled: bool,
    pub wall_kicks: WallKickMode,
}

/// One value the options screen can flip.
#[derive(Clone, Copy, Debug, PartialEq, Eq, Structural)]
pub enum OptionsToggle {
    HardDrop,
    Hold,
    GhostPiece,
    WallKicks,
}

/// The other wall-kick mode.
pub open spec fn other_mode(mode: WallKickMode) -> WallKickMode {
    match mode {
        WallKickMode::Off => WallKickMode::Srs,
        WallKickMode::Srs => WallKickMode::Off,
    }
}

/// `rules` with the value named by `toggle` flipped.
pub open spec fn toggled(rules: GameRules, toggle: OptionsToggle) -> GameRules {
    match toggle {
        OptionsToggle::HardDrop => GameRules { hard_drop_enabled: !rules.hard_drop_enabled, ..rules },
        OptionsToggle::Hold => GameRules { hold_enabled: !rules.hold_enabled, ..rules },
        OptionsToggle::GhostPiece => GameRules { ghost_enabled: !rules.ghost_enabled, ..rules },
        OptionsToggle::WallKicks => GameRules { wall_kicks: other_mode(rules.wall_kicks), ..rules },
    }
}

impl Default for GameRules {
    fn default() -> (r: GameRules)
        ensures
            r == (GameRules {
                hard_drop_enabled: true,
                hold_enabled: false,
                ghost_enabled: true,
                wall_kicks: WallKickMode::Srs,
            }),
    {
        GameRules {
            hard_drop_enabled: true,
            hold_enabled: false,
            ghost_enabled: true,
            wall_kicks: WallKickMode::Srs,
        }
    }
}

impl GameRules {
    /// Flips the value named by `toggle`, leaving the others as they are.
    pub fn toggle(&mut self, toggle: OptionsToggle)
        ensures
            *final(self) == toggled(*old(self), toggle),
    {
        match toggle {
            OptionsToggle::HardDrop => {
                self.hard_drop_enabled = !self.hard_drop_enabled;
            },
            OptionsToggle::Hold => {
                self.hold_enabled = !self.hold_enabled;
            },
            OptionsToggle::GhostPiece => {
                self.ghost_enabled = !self.ghost_enabled;
            },
            OptionsToggle::WallKicks => {
                self.wall_kicks = match self.wall_kicks {
                    WallKickMode::Off => WallKickMode::Srs,
                    WallKickMode::Srs => WallKickMode::Off,
                };
            },
        }
    }
}

/// Flipping the same option twice restores the rules.
pub proof fn lemma_toggle_twice_restores(rules: GameRules, toggle: OptionsToggle)
    ensures
        toggled(toggled(rules, toggle), toggle) == rules,
{
}

} // verus!
