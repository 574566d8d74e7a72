//! Core logic of a grid snake game: a segmented player entity moves on a
//! fixed 16x16 grid, grows by consuming randomly placed food, and the run
//! ends when its head leaves the grid or meets its own body.
//!
//! The state machine here is pure except for food placement, which draws
//! from macroquad's random number generator. Rendering and keyboard polling
//! live outside this crate; they consume the snapshot that `GameState`
//! exposes and feed directions back through `Player::set_direction`.

pub mod player;
pub mod state;

pub use player::{Direction, Player};
pub use state::{GameState, State};
