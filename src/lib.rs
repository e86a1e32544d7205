//! A number-guessing game: a session holds a hidden target in `[1, 100]`
//! and counts the guesses made against it.

mod decimal;
mod game;

pub use decimal::decimal;
pub use decimal::write_decimal;
pub use game::GameState;
pub use game::GameView;
pub use game::target_in_range;
pub use game::guess_message;
pub use game::lemma_attempts_count_guesses;
pub use game::play;
pub use game::step;
pub use game::TARGET_MAX;
pub use game::TARGET_MIN;
