//! The game session: its data, and the state machine that drives a frame.

pub mod game;
pub mod gamestate;
