//! The keys that move the camera, and which of them are held down.

use vstd::prelude::*;

verus! {

/// A key of the keyboard, as far as the camera is moved with it.
#[derive(Debug, Clone, Copy, PartialEq, Eq, Structural, Hash)]
pub enum Key {
    H,
    L,
    W,
    Up,
    A,
    Left,
    S,
    Down,
    D,
    Right,
    /// Any key that does not move the camera.
    Other,
}

/// The directions in which the camera is being moved: each is on while one
/// of its keys is held down.
#[derive(Debug, Clone, Copy, PartialEq, Eq, Structural)]
pub struct Directions {
    pub is_upward_pressed: bool,
    pub is_downward_pressed: bool,
    pub is_forward_pressed: bool,
    pub is_backward_pressed: bool,
    pub is_left_pressed: bool,
    pub is_right_pressed: bool,
}

impl Directions {
    /// No direction is on.
    pub fn new() -> (directions: Self)
        ensures
            directions == (Directions {
                is_upward_pressed: false,
                is_downward_pressed: false,
                is_forward_pressed: false,
                is_backward_pressed: false,
                is_left_pressed: false,
                is_right_pressed: false,
            }),
    {
        Directions {
            is_upward_pressed: false,
            is_downward_pressed: false,
            is_forward_pressed: false,
            is_backward_pressed: false,
            is_left_pressed: false,
            is_right_pressed: false,
        }
    }

    /// The directions after a key went down or up.
    pub open spec fn after(self, key: Key, is_pressed: bool) -> Directions {
        match key {
            Key::H => Directions { is_upward_pressed: is_pressed, ..self },
            Key::L => Directions { is_downward_pressed: is_pressed, ..self },
            Key::W | Key::Up => Directions { is_forward_pressed: is_pressed, ..self },
            Key::A | Key::Left => Directions { is_left_pressed: is_pressed, ..self },
            Key::S | Key::Down => Directions { is_backward_pressed: is_pressed, ..self },
            Key::D | Key::Right => Directions { is_right_pressed: is_pressed, ..self },
            Key::Other => self,
        }
    }

    /// Takes note of a key that went down or up, and says whether the key
    /// moves the camera.
    pub fn process_keyboard(&mut self, key: Key, is_pressed: bool) -> (handled: bool)
        ensures
            *final(self) == old(self).after(key, is_pressed),
            handled == (key != Key::Other),
    {
        match key {
            Key::H => {
                self.is_upward_pressed = is_pressed;
                true
            },
            Key::L => {
                self.is_downward_pressed = is_pressed;
                true
            },
            Key::W | Key::Up => {
                self.is_forward_pressed = is_pressed;
                true
            },
            Key::A | Key::Left => {
                self.is_left_pressed = is_pressed;
                true
            },
            Key::S | Key::Down => {
                self.is_backward_pressed = is_pressed;
                true
            },
            Key::D | Key::Right => {
                self.is_right_pressed = is_pressed;
                true
            },
            Key::Other => false,
        }
    }
}

} // verus!
