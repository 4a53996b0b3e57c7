pub mod bag;
pub mod rotation;
pub mod srs;
pub mod tetromino;
pub mod wall_kicks;

pub use rotation::{Rotation, RotationDirection, WallKickMode};
pub use tetromino::TetrominoKind;
pub use srs::blocks_for;
pub use wall_kicks::srs_wall_kicks;
pub use bag::SevenBag;
