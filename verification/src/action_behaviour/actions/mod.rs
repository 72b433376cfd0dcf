//! The actions of the game.

pub mod emit_projectile;
