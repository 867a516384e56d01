//! The per-frame logic of a small 2D sprite game: a sprite that cycles
//! through its animation frames on a timer, a player moved left and right
//! within the window, a counter of trigger presses, and a label that shows
//! the player's position. The host engine draws the records and hands each
//! frame's elapsed time and key states to `game::update`.

pub mod animation;
pub mod text;
pub mod movement;
pub mod counter;
pub mod label;
pub mod player;
pub mod game;
