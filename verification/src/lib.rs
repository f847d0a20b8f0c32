//! A small turn-based roguelike core: actors with swappable movement
//! strategies, layered occupancy maps, and the state machine that switches
//! between free movement and targeted attacks.
//!
//! The library decides and records; it draws nothing and reads no key. A
//! program around it hands in the keys, runs [`game::Game::update`] and
//! plays back the frame that [`game::Game::render`] records.

pub mod util;
pub mod input;
pub mod rendering;
pub mod movement;
pub mod actor;
pub mod combat;
pub mod map;
pub mod narration;
pub mod game_states;
pub mod game;
