//! Simulation core of a grid-based snake game.
//!
//! The library models the game board as a fixed-size toroidal grid. A
//! [`game::GameState`] holds the snake's geometry, the pending and committed
//! movement directions, the food position, the score, and a derived render
//! board; [`game::GameState::advance`] is the single per-tick transition.

mod random;
pub mod game;
