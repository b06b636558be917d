//! The verified core of a small chess window: what the board shows, how clicks
//! and clock ticks drive a game between people and an engine, and the texts
//! that surround the board.

pub mod grid;
pub mod laws;
pub mod model;
pub mod panel;
pub mod pieces;
pub mod state;
pub mod text;
