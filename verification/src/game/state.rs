//! Top-level game state machine and the transitions between its variants.
//!
//! ```text
//! Home     --Start-->    Playing
//! Home     --Options-->  Options    --Back-->  Home
//! Home     --Quit-->     AppExit
//! Playing  --Esc-->      Paused     --Esc-->   Playing  (resume)
//!                                   --R-->     Playing  (restart)
//!                                   --H-->     Home
//! Playing  --GameOver--> GameOver   --R-->     Playing
//!                                   --Esc-->   Home
//! ```
use vstd::prelude::*;

use crate::board::{ActivePiece, Board};
use crate::board::lock::spawned;
use crate::pieces::SevenBag;
use crate::pieces::bag::drew;

use super::score::Score;

verus! {

#[derive(Default, Debug, Clone, Copy, PartialEq, Eq, Hash, Structural)]
pub enum GameState {
    #[default]
    Home,
    Options,
    Playing,
    Paused,
    GameOver,
}

/// A request to change screens: a menu button, or a lock that topped out.
#[derive(Debug, Clone, Copy, PartialEq, Eq, Structural)]
pub enum MenuCommand {
    /// Home "Start" (or Enter / Space).
    Start,
    /// Home "Options".
    OpenOptions,
    /// Home "Quit" (or Escape).
    Quit,
    /// Options "Back" (or Escape / Backspace).
    Back,
    /// Escape while playing.
    Pause,
    /// Pause "Resume" (or Escape).
    Resume,
    /// Pause "Restart", or R on the pause and game-over screens.
    Restart,
    /// Pause "Home" (or H), or Escape on the game-over screen.
    GoHome,
    /// A lock reported a top-out.
    TopOut,
}

/// What a command does.
#[derive(Debug, Clone, Copy, PartialEq, Eq, Structural)]
pub enum Transition {
    /// Nothing changes.
    Stay,
    /// Enter `to`. `resume` asks the next entry into Playing to keep the
    /// current run instead of starting a fresh one.
    Go { to: GameState, resume: bool },
    /// Leave the application.
    Exit,
}

/// The transition table of the diagram above.
pub open spec fn spec_transition(state: GameState, command: MenuCommand) -> Transition {
    match (state, command) {
        (GameState::Home, MenuCommand::Start) => Transition::Go { to: GameState::Playing, resume: false },
        (GameState::Home, MenuCommand::OpenOptions) => Transition::Go { to: GameState::Options, resume: false },
        (GameState::Home, MenuCommand::Quit) => Transition::Exit,
        (GameState::Options, MenuCommand::Back) => Transition::Go { to: GameState::Home, resume: false },
        (GameState::Playing, MenuCommand::Pause) => Transition::Go { to: GameState::Paused, resume: false },
        (GameState::Playing, MenuCommand::TopOut) => Transition::Go { to: GameState::GameOver, resume: false },
        (GameState::Paused, MenuCommand::Resume) => Transition::Go { to: GameState::Playing, resume: true },
        (GameState::Paused, MenuCommand::Restart) => Transition::Go { to: GameState::Playing, resume: false },
        (GameState::Paused, MenuCommand::GoHome) => Transition::Go { to: GameState::Home, resume: false },
        (GameState::GameOver, MenuCommand::Restart) => Transition::Go { to: GameState::Playing, resume: false },
        (GameState::GameOver, MenuCommand::GoHome) => Transition::Go { to: GameState::Home, resume: false },
        _ => Transition::Stay,
    }
}

/// Applies `command` in `state`.
pub fn transition(state: GameState, command: MenuCommand) -> (t: Transition)
    ensures
        t == spec_transition(state, command),
{
    match (state, command) {
        (GameState::Home, MenuCommand::Start) => Transition::Go { to: GameState::Playing, resume: false },
        (GameState::Home, MenuCommand::OpenOptions) => Transition::Go { to: GameState::Options, resume: false },
        (GameState::Home, MenuCommand::Quit) => Transition::Exit,
        (GameState::Options, MenuCommand::Back) => Transition::Go { to: GameState::Home, resume: false },
        (GameState::Playing, MenuCommand::Pause) => Transition::Go { to: GameState::Paused, resume: false },
        (GameState::Playing, MenuCommand::TopOut) => Transition::Go { to: GameState::GameOver, resume: false },
        (GameState::Paused, MenuCommand::Resume) => Transition::Go { to: GameState::Playing, resume: true },
        (GameState::Paused, MenuCommand::Restart) => Transition::Go { to: GameState::Playing, resume: false },
        (GameState::Paused, MenuCommand::GoHome) => Transition::Go { to: GameState::Home, resume: false },
        (GameState::GameOver, MenuCommand::Restart) => Transition::Go { to: GameState::Playing, resume: false },
        (GameState::GameOver, MenuCommand::GoHome) => Transition::Go { to: GameState::Home, resume: false },
        _ => Transition::Stay,
    }
}

/// Only resuming from the pause screen keeps the current run: every other
/// way into Playing (Start from Home, Restart from Pause or Game Over) asks
/// for a fresh one.
pub proof fn lemma_only_resume_keeps_the_run(state: GameState, command: MenuCommand)
    ensures
        spec_transition(state, command) matches Transition::Go { resume: true, .. } ==> state
            == GameState::Paused && command == MenuCommand::Resume,
        spec_transition(state, command) matches Transition::Go { to: GameState::Playing, resume }
            ==> (resume <==> state == GameState::Paused && command == MenuCommand::Resume),
{
}

/// Restart, wherever it is accepted, starts a fresh run; it is accepted on
/// the pause and game-over screens and nowhere else.
pub proof fn lemma_restart_starts_fresh(state: GameState)
    ensures
        (state == GameState::Paused || state == GameState::GameOver) ==> spec_transition(
            state,
            MenuCommand::Restart,
        ) == (Transition::Go { to: GameState::Playing, resume: false }),
        !(state == GameState::Paused || state == GameState::GameOver) ==> spec_transition(
            state,
            MenuCommand::Restart,
        ) == Transition::Stay,
{
}

/// The keys the menus listen to, as pressed this frame.
#[derive(Debug, Clone, Copy, Default)]
pub struct MenuKeys {
    pub escape: bool,
    pub enter: bool,
    pub space: bool,
    pub backspace: bool,
    pub r: bool,
    pub h: bool,
}

/// The command the keyboard issues in `state`; when several bound keys are
/// pressed on one frame, the first binding listed wins.
pub open spec fn spec_keyboard_command(state: GameState, keys: MenuKeys) -> Option<MenuCommand> {
    match state {
        GameState::Home => if keys.enter || keys.space {
            Some(MenuCommand::Start)
        } else if keys.escape {
            Some(MenuCommand::Quit)
        } else {
            None
        },
        GameState::Options => if keys.escape || keys.backspace {
            Some(MenuCommand::Back)
        } else {
            None
        },
        GameState::Playing => if keys.escape {
            Some(MenuCommand::Pause)
        } else {
            None
        },
        GameState::Paused => if keys.escape {
            Some(MenuCommand::Resume)
        } else if keys.r {
            Some(MenuCommand::Restart)
        } else if keys.h {
            Some(MenuCommand::GoHome)
        } else {
            None
        },
        GameState::GameOver => if keys.r {
            Some(MenuCommand::Restart)
        } else if keys.escape {
            Some(MenuCommand::GoHome)
        } else {
            None
        },
    }
}

/// Maps this frame's key presses to a command for the current screen.
pub fn keyboard_command(state: GameState, keys: MenuKeys) -> (c: Option<MenuCommand>)
    ensures
        c == spec_keyboard_command(state, keys),
{
    match state {
        GameState::Home => if keys.enter || keys.space {
            Some(MenuCommand::Start)
        } else if keys.escape {
            Some(MenuCommand::Quit)
        } else {
            None
        },
        GameState::Options => if keys.escape || keys.backspace {
            Some(MenuCommand::Back)
        } else {
            None
        },
        GameState::Playing => if keys.escape {
            Some(MenuCommand::Pause)
        } else {
            None
        },
        GameState::Paused => if keys.escape {
            Some(MenuCommand::Resume)
        } else if keys.r {
            Some(MenuCommand::Restart)
        } else if keys.h {
            Some(MenuCommand::GoHome)
        } else {
            None
        },
        GameState::GameOver => if keys.r {
            Some(MenuCommand::Restart)
        } else if keys.escape {
            Some(MenuCommand::GoHome)
        } else {
            None
        },
    }
}

/// Whether any of this frame's locks reports a top-out while playing: the
/// run is over as soon as one does. Outside Playing the reports are
/// discarded.
pub fn check_game_over(state: GameState, topped_out: &Vec<bool>) -> (over: bool)
    ensures
        over == (state == GameState::Playing && topped_out@.contains(true)),
{
    if state != GameState::Playing {
        return false;
    }
    let mut i: usize = 0;
    while i < topped_out.len()
        invariant
            0 <= i <= topped_out.len(),
            state == GameState::Playing,
            forall|j: int| 0 <= j < i ==> !topped_out@[j],
        decreases topped_out.len() - i,
    {
        if topped_out[i] {
            assert(topped_out@[i as int] == true);
            return true;
        }
        i += 1;
    }
    false
}

/// Fresh-run setup on entry into Playing. When the entry is a resume from
/// the pause screen, the flag is cleared and the current run is kept
/// (`None`). Otherwise the board is cleared, the bag replaced by `fresh` (a
/// bag newly seeded by the caller), the score reset, and the first piece
/// drawn and returned.
pub fn start_run(
    resume: &mut bool,
    board: &mut Board,
    bag: &mut SevenBag,
    score: &mut Score,
    fresh: SevenBag,
) -> (piece: Option<ActivePiece>)
    ensures
        !*final(resume),
        *old(resume) ==> piece is None && *final(board) == *old(board) && *final(score) == *old(score) && *final(bag) == *old(bag),
        !*old(resume) ==> {
            &&& final(board).is_clear()
            &&& *final(score) == (Score { value: 0, lines_cleared: 0, level: 1 })
            &&& piece matches Some(p) && p == spawned(p.kind) && drew(fresh, p.kind, *final(bag))
        },
{
    if *resume {
        *resume = false;
        return None;
    }
    board.reset();
    *bag = fresh;
    *score = Score::default();
    let kind = bag.next();
    Some(ActivePiece::new(kind, kind.spawn_origin()))
}

} // verus!
