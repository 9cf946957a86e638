//! Core logic of a small two-mode 2D game: an overworld the player roams
//! under axis-clamped movement and axis-aligned collision, and a battle
//! menu with a four-slot move selection, input debouncing, and a debug
//! health-drain animation. Rendering and input live outside this crate;
//! the functions here take plain key snapshots and state and decide what
//! the next frame's state is.

pub mod battle;
pub mod game;
pub mod player;
pub mod rect;
