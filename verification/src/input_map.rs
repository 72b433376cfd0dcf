//! The player's intent, read off the keyboard once a frame.

use bevy::input::keyboard::KeyCode;
use bevy::input::keyboard::NativeKeyCode;
use bevy::input::ButtonInput;
use std::hash::Hash;
use vstd::prelude::*;

verus! {

#[verifier::external_type_specification]
pub struct ExNativeKeyCode(NativeKeyCode);

#[verifier::external_type_specification]
pub struct ExKeyCode(KeyCode);

#[verifier::external_type_specification]
#[verifier::external_body]
#[verifier::reject_recursive_types(T)]
pub struct ExButtonInput<T: Copy + Eq + Hash + Send + Sync + 'static>(ButtonInput<T>);

/// The keys that are held down.
pub uninterp spec fn pressed_keys(keyboard_input: ButtonInput<KeyCode>) -> Set<KeyCode>;

/// The keys that went down since the last frame.
pub uninterp spec fn just_pressed_keys(keyboard_input: ButtonInput<KeyCode>) -> Set<KeyCode>;

/// `ButtonInput::pressed`: whether `key` is among the keys held down.
#[verifier::external_body]
fn pressed(keyboard_input: &ButtonInput<KeyCode>, key: KeyCode) -> (down: bool)
    ensures
        down == pressed_keys(*keyboard_input).contains(key),
{
    keyboard_input.pressed(key)
}

/// `ButtonInput::just_pressed`: whether `key` went down since the last frame.
#[verifier::external_body]
fn just_pressed(keyboard_input: &ButtonInput<KeyCode>, key: KeyCode) -> (down: bool)
    ensures
        down == just_pressed_keys(*keyboard_input).contains(key),
{
    keyboard_input.just_pressed(key)
}

/// A direction in which the player can steer.
#[derive(Clone, Copy, Debug, PartialEq, Eq, Structural)]
pub enum Direction {
    Up,
    Down,
    Left,
    Right,
}

impl Direction {
    /// Whether one of the direction's two keys is among `keys`.
    pub open spec fn held(self, keys: Set<KeyCode>) -> bool {
        match self {
            Direction::Up => keys.contains(KeyCode::KeyW) || keys.contains(KeyCode::ArrowUp),
            Direction::Down => keys.contains(KeyCode::KeyS) || keys.contains(KeyCode::ArrowDown),
            Direction::Left => keys.contains(KeyCode::KeyA) || keys.contains(KeyCode::ArrowLeft),
            Direction::Right => keys.contains(KeyCode::KeyD) || keys.contains(
                KeyCode::ArrowRight,
            ),
        }
    }

    /// What the direction adds to its axis: one where it is held, else nothing.
    pub open spec fn movement(self, keys: Set<KeyCode>) -> int {
        if self.held(keys) {
            1
        } else {
            0
        }
    }

    /// Whether the player holds the direction's letter key or its arrow key.
    pub fn pressed(&self, keyboard_input: &ButtonInput<KeyCode>) -> (down: bool)
        ensures
            down == self.held(pressed_keys(*keyboard_input)),
    {
        match self {
            Direction::Up => {
                pressed(keyboard_input, KeyCode::KeyW) || pressed(keyboard_input, KeyCode::ArrowUp)
            },
            Direction::Down => {
                pressed(keyboard_input, KeyCode::KeyS) || pressed(
                    keyboard_input,
                    KeyCode::ArrowDown,
                )
            },
            Direction::Left => {
                pressed(keyboard_input, KeyCode::KeyA) || pressed(
                    keyboard_input,
                    KeyCode::ArrowLeft,
                )
            },
            Direction::Right => {
                pressed(keyboard_input, KeyCode::KeyD) || pressed(
                    keyboard_input,
                    KeyCode::ArrowRight,
                )
            },
        }
    }
}

/// What `control` adds to its axis.
pub fn get_movement(control: Direction, input: &ButtonInput<KeyCode>) -> (movement: i8)
    ensures
        movement == control.movement(pressed_keys(*input)),
{
    if control.pressed(input) {
        1
    } else {
        0
    }
}

/// The player's intent as contracts see it.
pub struct InputModel {
    /// Right minus left, and up minus down.
    pub movement_direction: (i8, i8),
    /// Whether a tile is still to be destroyed.
    pub destroy_tile: bool,
}

pub struct InputMap {
    movement_direction: (i8, i8),
    destroy_tile: bool,
}

impl View for InputMap {
    type V = InputModel;

    closed spec fn view(&self) -> InputModel {
        InputModel { movement_direction: self.movement_direction, destroy_tile: self.destroy_tile }
    }
}

impl Default for InputMap {
    /// No movement, nothing to destroy.
    fn default() -> (map: InputMap)
        ensures
            map@ == (InputModel { movement_direction: (0i8, 0i8), destroy_tile: false }),
    {
        InputMap { movement_direction: (0, 0), destroy_tile: false }
    }
}

impl InputMap {
    /// Where the player steers: right minus left, and up minus down. Each is -1, 0
    /// or 1; the length of the pair is left to the reader.
    #[inline]
    pub fn movement_direction(&self) -> (direction: (i8, i8))
        ensures
            direction == self@.movement_direction,
    {
        self.movement_direction
    }

    /// Takes the wish to destroy a tile: true once for each time it was made, then
    /// false until it is made again.
    #[inline]
    pub fn destroy_tile(&mut self) -> (wished: bool)
        ensures
            wished == old(self)@.destroy_tile,
            final(self)@ == (InputModel { destroy_tile: false, ..old(self)@ }),
    {
        if self.destroy_tile {
            self.destroy_tile = false;
            true
        } else {
            false
        }
    }
}

/// Remembers the wish to destroy a tile: it is made when `K` or `X` goes down, and
/// stays until it is taken.
pub fn set_destroy_tile(map: &mut InputMap, keyboard_input: &ButtonInput<KeyCode>)
    ensures
        final(map)@ == (InputModel {
            destroy_tile: old(map)@.destroy_tile || just_pressed_keys(*keyboard_input).contains(
                KeyCode::KeyK,
            ) || just_pressed_keys(*keyboard_input).contains(KeyCode::KeyX),
            ..old(map)@
        }),
{
    map.destroy_tile = map.destroy_tile || just_pressed(keyboard_input, KeyCode::KeyK)
        || just_pressed(keyboard_input, KeyCode::KeyX);
}

/// Reads the steering off the keys held down: opposite keys cancel each other.
pub fn set_movement_direction(map: &mut InputMap, keyboard_input: &ButtonInput<KeyCode>)
    ensures
        final(map)@ == (InputModel {
            movement_direction: (
                (Direction::Right.movement(pressed_keys(*keyboard_input)) - Direction::Left.movement(
                    pressed_keys(*keyboard_input),
                )) as i8,
                (Direction::Up.movement(pressed_keys(*keyboard_input)) - Direction::Down.movement(
                    pressed_keys(*keyboard_input),
                )) as i8,
            ),
            ..old(map)@
        }),
{
    let player_movement = (
        get_movement(Direction::Right, keyboard_input) - get_movement(
            Direction::Left,
            keyboard_input,
        ),
        get_movement(Direction::Up, keyboard_input) - get_movement(Direction::Down, keyboard_input),
    );
    map.movement_direction = player_movement;
}

} // verus!
