use vstd::prelude::*;

verus! {

/// Gamepad bit of the left button.
pub const BUTTON_LEFT: u8 = 16;

/// Gamepad bit of the right button.
pub const BUTTON_RIGHT: u8 = 32;

/// Gamepad bit of the up button.
pub const BUTTON_UP: u8 = 64;

/// Gamepad bit of the down button.
pub const BUTTON_DOWN: u8 = 128;

/// Whether bit `i` of `state` is set.
pub open spec fn pressed(state: u8, i: u8) -> bool {
    (state >> i) & 1u8 == 1u8
}

/// The four directional inputs of one frame.
#[derive(Clone, Copy, Debug, PartialEq, Eq, Structural)]
pub struct Buttons {
    pub up: bool,
    pub down: bool,
    pub left: bool,
    pub right: bool,
}

/// Reads the directional buttons out of a gamepad byte:
/// bit 4 is left, bit 5 right, bit 6 up and bit 7 down.
pub fn decode_gamepad(state: u8) -> (r: Buttons)
    ensures
        r.left == pressed(state, 4),
        r.right == pressed(state, 5),
        r.up == pressed(state, 6),
        r.down == pressed(state, 7),
{
    let r = Buttons {
        up: state & BUTTON_UP != 0,
        down: state & BUTTON_DOWN != 0,
        left: state & BUTTON_LEFT != 0,
        right: state & BUTTON_RIGHT != 0,
    };
    assert(((state & 16u8) != 0) == ((state >> 4u8) & 1u8 == 1u8)) by (bit_vector);
    assert(((state & 32u8) != 0) == ((state >> 5u8) & 1u8 == 1u8)) by (bit_vector);
    assert(((state & 64u8) != 0) == ((state >> 6u8) & 1u8 == 1u8)) by (bit_vector);
    assert(((state & 128u8) != 0) == ((state >> 7u8) & 1u8 == 1u8)) by (bit_vector);
    r
}

} // verus!
