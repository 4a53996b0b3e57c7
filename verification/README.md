# blockvy

The rules of a grid-based falling-block puzzle game, written as a verified
library, with the game itself (window, input, rendering, audio, settings
files) as a thin application around it.

## Layout

- `src/` — the library, every function with a contract proved by Verus:
  - `pieces/` — the seven tetrominoes, SRS orientation states and block
    offsets, the SRS wall-kick tables, and the seven-bag generator.
  - `board/` — the 10 x 20 playfield, the falling piece, collision, hard
    drop and ghost projection, gravity steps, line detection and clearing,
    locking, rotation with kicks, and the line-clear delay's completion.
  - `game/` — score and levels, rule toggles, and the screen state machine.
  - `input/` — input timings, the auto-shift key states, and the player
    moves (shift, soft drop, rotations and hard drop on press).
  - `audio.rs` — which sound a gameplay event asks for.
  - `ui/` — the extent of a piece for the next-piece preview, and the list
    of blocks the board panel draws (locked cells, ghost, active piece).
- `tests/` — tests of the library.
- `app/` — the Bevy application: ECS resources and systems, the frame clock
  (gravity, soft-drop and auto-shift timers, the clear animation), menus and
  rendering, sound playback and settings persistence.
