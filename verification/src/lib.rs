//! Simulation core of a grid-based snake game.
//!
//! The library owns the full game state (snake body, direction, food,
//! lifecycle state) and the tick transition that moves the snake, grows it
//! on food, and ends the game on wall or self collision. Rendering, input
//! translation and timing live outside the library.

pub mod config;
pub mod game_context;
pub mod point;
