//! Game-state engine for a grid-based snake game.
//!
//! The snake moves on a fixed-size grid, grows by eating food, and the game
//! ends when the snake collides with a wall or with itself. This crate holds
//! the verified rules: snake movement, growth, collision detection, food
//! placement, and the running / game-over / restart lifecycle, driven by a
//! fixed-tick update loop. Rendering and window handling live outside.

pub mod draw;
pub mod game;
pub mod snake;
