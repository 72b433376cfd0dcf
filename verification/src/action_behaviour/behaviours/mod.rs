//! The behaviours of the game.

pub mod player;
