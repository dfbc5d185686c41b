//! The rules of a small tile-based dungeon crawler, separated from the window
//! that shows it: the dungeon and its inhabitants, what a frame of keyboard
//! input does to them, and the list of things to paint for a given state.

pub mod grid;
pub mod tile;
pub mod entity;
pub mod input;
pub mod assets;
pub mod render;
pub mod game;
