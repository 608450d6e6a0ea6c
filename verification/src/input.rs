//! The button set a frame's producer may react to. The core accepts no
//! input itself; these identifiers only index button-state arrays built
//! outside it.

use vstd::prelude::*;

verus! {

/// How many buttons there are.
pub const BUTTON_COUNT: usize = 10;

/// Button layout similar to a handheld game pad.
#[derive(Clone, Copy, Debug, PartialEq, Eq, Structural)]
pub enum Button {
    Up,
    Down,
    Left,
    Right,
    A,
    B,
    L,
    R,
    Start,
    Select,
}

/// The state-array slot of each button.
pub open spec fn button_index(b: Button) -> usize {
    match b {
        Button::Up => 0usize,
        Button::Down => 1usize,
        Button::Left => 2usize,
        Button::Right => 3usize,
        Button::A => 4usize,
        Button::B => 5usize,
        Button::L => 6usize,
        Button::R => 7usize,
        Button::Start => 8usize,
        Button::Select => 9usize,
    }
}

/// The button of each state-array slot, if the slot is in range.
pub open spec fn button_from(n: usize) -> Option<Button> {
    if n == 0 {
        Some(Button::Up)
    } else if n == 1 {
        Some(Button::Down)
    } else if n == 2 {
        Some(Button::Left)
    } else if n == 3 {
        Some(Button::Right)
    } else if n == 4 {
        Some(Button::A)
    } else if n == 5 {
        Some(Button::B)
    } else if n == 6 {
        Some(Button::L)
    } else if n == 7 {
        Some(Button::R)
    } else if n == 8 {
        Some(Button::Start)
    } else if n == 9 {
        Some(Button::Select)
    } else {
        None
    }
}

impl Button {
    /// The slot of this button in a state array.
    pub fn index(&self) -> (n: usize)
        ensures
            n == button_index(*self),
            n < BUTTON_COUNT,
    {
        match self {
            Button::Up => 0,
            Button::Down => 1,
            Button::Left => 2,
            Button::Right => 3,
            Button::A => 4,
            Button::B => 5,
            Button::L => 6,
            Button::R => 7,
            Button::Start => 8,
            Button::Select => 9,
        }
    }

    /// The button of a slot, if the slot is in range.
    pub fn from_usize(button: usize) -> (r: Option<Button>)
        ensures
            r == button_from(button),
            r is Some <==> button < BUTTON_COUNT,
    {
        match button {
            0 => Some(Button::Up),
            1 => Some(Button::Down),
            2 => Some(Button::Left),
            3 => Some(Button::Right),
            4 => Some(Button::A),
            5 => Some(Button::B),
            6 => Some(Button::L),
            7 => Some(Button::R),
            8 => Some(Button::Start),
            9 => Some(Button::Select),
            _ => None,
        }
    }
}

/// Slots and buttons correspond one to one: a button's slot maps back to
/// the button, and an in-range slot's button maps back to the slot.
pub proof fn lemma_button_roundtrip(b: Button, n: usize)
    ensures
        button_from(button_index(b)) == Some(b),
        n < BUTTON_COUNT ==> match button_from(n) {
            Some(bn) => button_index(bn) == n,
            None => false,
        },
{
}

} // verus!
