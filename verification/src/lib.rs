//! Grid-based falling-block puzzle logic: tetromino shapes and rotation
//! states, the playfield, collision, line clearing, locking, scoring and the
//! seven-bag piece generator.

pub mod coord;
pub mod pieces;

pub use coord::Coord;
pub mod board;
pub mod game;
pub mod input;
pub mod audio;
pub mod ui;
