//! Pointer-button input state: which buttons are currently held down.

use vstd::prelude::*;

verus! {

/// Identifies a pointer-device button.
#[derive(Clone, Copy, PartialEq, Eq, Structural)]
pub enum MouseButton {
    Left,
    Right,
    Middle,
}

/// Polled pressed/released state of the pointer buttons. A button counts as
/// held from the moment it is pressed until it is released; there is no
/// edge detection here.
#[derive(Clone, Copy, PartialEq, Eq, Structural)]
pub struct ButtonInput {
    pub left: bool,
    pub right: bool,
    pub middle: bool,
}

impl ButtonInput {
    /// The state in which every button is released.
    pub open spec fn released() -> ButtonInput {
        ButtonInput { left: false, right: false, middle: false }
    }

    /// `self` with the given button set to `held` and the others unchanged.
    pub open spec fn spec_set(self, button: MouseButton, held: bool) -> ButtonInput {
        match button {
            MouseButton::Left => ButtonInput { left: held, right: self.right, middle: self.middle },
            MouseButton::Right => ButtonInput { left: self.left, right: held, middle: self.middle },
            MouseButton::Middle => ButtonInput { left: self.left, right: self.right, middle: held },
        }
    }

    /// Whether the given button is currently held down.
    pub open spec fn spec_pressed(self, button: MouseButton) -> bool {
        match button {
            MouseButton::Left => self.left,
            MouseButton::Right => self.right,
            MouseButton::Middle => self.middle,
        }
    }

    /// A fresh input resource: no button is held.
    pub fn new() -> (input: ButtonInput)
        ensures
            input == ButtonInput::released(),
    {
        ButtonInput { left: false, right: false, middle: false }
    }

    /// Whether the given button is currently held down.
    pub fn pressed(&self, button: MouseButton) -> (held: bool)
        ensures
            held == self.spec_pressed(button),
    {
        match button {
            MouseButton::Left => self.left,
            MouseButton::Right => self.right,
            MouseButton::Middle => self.middle,
        }
    }

    /// Mark the button as held down; it stays down until released.
    pub fn press(&mut self, button: MouseButton)
        ensures
            *final(self) == old(self).spec_set(button, true),
    {
        match button {
            MouseButton::Left => self.left = true,
            MouseButton::Right => self.right = true,
            MouseButton::Middle => self.middle = true,
        }
    }

    /// Mark the button as released.
    pub fn release(&mut self, button: MouseButton)
        ensures
            *final(self) == old(self).spec_set(button, false),
    {
        match button {
            MouseButton::Left => self.left = false,
            MouseButton::Right => self.right = false,
            MouseButton::Middle => self.middle = false,
        }
    }
}

} // verus!
