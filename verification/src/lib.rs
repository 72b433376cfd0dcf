//! Timer-driven entity behaviours and their once-only registration.

pub mod action_behaviour;
pub mod common;
pub mod dynamic_initialization;
pub mod input_map;
pub mod playing_state;
pub mod timer;
pub mod utils;

use vstd::prelude::*;

verus! {

/// The screen that the game is on.
#[derive(Clone, Copy, Debug, PartialEq, Eq, Hash, Structural)]
pub enum GameState {
    /// Here the menu is drawn and waiting for player interaction.
    Menu,
    /// During this state the actual game logic is executed.
    Playing,
}

impl Default for GameState {
    fn default() -> (state: GameState)
        ensures
            state == GameState::Menu,
    {
        GameState::Menu
    }
}

} // verus!
