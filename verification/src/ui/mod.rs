pub mod preview;
pub mod scene;

pub use preview::bounding_box;
pub use scene::{BlockLayer, SceneBlock, board_scene};
