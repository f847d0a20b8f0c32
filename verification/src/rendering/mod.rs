//! What the game shows: text windows and the calls that draw a frame.

pub mod renderers;
pub mod windows;
