//! A circular-timing arcade engine: a pointer sweeps round a circle at a
//! growing speed, and each tap either lands inside the target zone or costs a
//! life. Angles are held in microradians and times in microseconds, so every
//! rule of the game is exact integer arithmetic.
pub mod game;
pub mod models;
pub mod session;

pub use game::{new_game, tap, update};
pub use models::GameState;
