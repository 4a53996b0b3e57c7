pub mod rules;
pub mod score;
pub mod state;

pub use rules::{GameRules, OptionsToggle};
pub use score::Score;
pub use state::GameState;
