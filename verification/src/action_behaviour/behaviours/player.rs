//! What the player's entity wants, as the input map has it.

use crate::input_map::InputMap;
use crate::input_map::InputModel;
use crate::playing_state::RemoveTile;
use crate::timer::nanos;
use crate::timer::NANOS_PER_MILLI;
use std::time::Duration;
use vstd::prelude::*;

verus! {

/// Marks the entity that the player steers.
pub struct PlayerBehaviour;

/// For how long the player destroys a tile, in milliseconds.
pub const REMOVE_TILE_MILLIS: u64 = 2000;

/// Turns the wish to destroy a tile into a request for the tile under the player.
/// `players` holds the array position of each entity that the player steers. The
/// first of them takes the wish; with no wish, or nobody to take it, nothing is
/// requested and the wish stays as it is.
pub fn player_tile_destruction(players: &Vec<(i32, i32)>, input: &mut InputMap) -> (requests: Vec<
    RemoveTile,
>)
    ensures
        old(input)@.destroy_tile && players.len() > 0 ==> {
            &&& requests.len() == 1
            &&& requests[0].0 == players[0]
            &&& nanos(requests[0].1) == REMOVE_TILE_MILLIS * NANOS_PER_MILLI
            &&& final(input)@ == (InputModel { destroy_tile: false, ..old(input)@ })
        },
        !(old(input)@.destroy_tile && players.len() > 0) ==> {
            &&& requests.len() == 0
            &&& final(input)@ == old(input)@
        },
{
    let mut requests: Vec<RemoveTile> = Vec::new();
    let mut i: usize = 0;
    while i < players.len()
        invariant
            i <= players.len(),
            i == 0 ==> requests.len() == 0 && input@ == old(input)@,
            i > 0 && old(input)@.destroy_tile ==> {
                &&& requests.len() == 1
                &&& requests[0].0 == players[0]
                &&& nanos(requests[0].1) == REMOVE_TILE_MILLIS * NANOS_PER_MILLI
                &&& input@ == (InputModel { destroy_tile: false, ..old(input)@ })
            },
            i > 0 && !old(input)@.destroy_tile ==> requests.len() == 0 && input@ == old(input)@,
        decreases players.len() - i,
    {
        if input.destroy_tile() {
            requests.push(RemoveTile(players[i], Duration::from_millis(REMOVE_TILE_MILLIS)));
        }
        i += 1;
    }
    requests
}

} // verus!
