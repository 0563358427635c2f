//! Translation of pressed keys to the console's input codes.

use vstd::prelude::*;
use crate::isa::{
    INPUT_A, INPUT_B, INPUT_DOWN, INPUT_LEFT, INPUT_NONE, INPUT_RIGHT, INPUT_SELECT, INPUT_START,
    INPUT_UP,
};

verus! {

/// A key, as far as the console tells keys apart.
#[derive(Clone, Copy, Debug, PartialEq, Eq, Structural)]
pub enum Key {
    Up,
    Down,
    Left,
    Right,
    Return,
    Space,
    A,
    B,
    Other,
}

/// The input code of a key: the arrows, Return (start), Space (select),
/// A and B have their own; every other key gives none.
pub open spec fn input_code(k: Key) -> u8 {
    match k {
        Key::Up => INPUT_UP,
        Key::Down => INPUT_DOWN,
        Key::Left => INPUT_LEFT,
        Key::Right => INPUT_RIGHT,
        Key::Return => INPUT_START,
        Key::Space => INPUT_SELECT,
        Key::A => INPUT_A,
        Key::B => INPUT_B,
        Key::Other => INPUT_NONE,
    }
}

/// The input code of a pressed key.
pub fn keycode_to_vm_input(key: Key) -> (r: u8)
    ensures
        r == input_code(key),
{
    match key {
        Key::Up => INPUT_UP,
        Key::Down => INPUT_DOWN,
        Key::Left => INPUT_LEFT,
        Key::Right => INPUT_RIGHT,
        Key::Return => INPUT_START,
        Key::Space => INPUT_SELECT,
        Key::A => INPUT_A,
        Key::B => INPUT_B,
        Key::Other => INPUT_NONE,
    }
}

} // verus!
