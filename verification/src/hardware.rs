//! The joypad as the machine sees it: eight buttons, each up or down.

use vstd::prelude::*;

verus! {

/// One of the eight buttons.
#[derive(Copy, Clone, Debug, PartialEq, Eq, Structural)]
pub enum Button {
    Up,
    Down,
    Left,
    Right,
    Start,
    Select,
    A,
    B,
}

/// Whether a button is released or held.
#[derive(Copy, Clone, Debug, PartialEq, Eq, Structural)]
pub enum ButtonState {
    Up,
    Down,
}

/// The input hardware of the machine.
pub struct Hardware {
    joypad: Joypad,
}

impl Hardware {
    /// The joypad.
    pub closed spec fn joypad(&self) -> Joypad {
        self.joypad
    }

    /// Hardware with every button released.
    pub fn new() -> (hardware: Self)
        ensures
            forall|button: Button| !hardware.joypad().is_down(button),
    {
        Self { joypad: Joypad::new() }
    }
}

impl Default for Hardware {
    fn default() -> (hardware: Self)
        ensures
            forall|button: Button| !hardware.joypad().is_down(button),
    {
        Self::new()
    }
}

/// The state of the eight buttons.
pub struct Joypad {
    up: bool,
    down: bool,
    left: bool,
    right: bool,
    start: bool,
    select: bool,
    a: bool,
    b: bool,
}

impl Joypad {
    /// Whether `button` is held.
    pub closed spec fn is_down(&self, button: Button) -> bool {
        match button {
            Button::Up => self.up,
            Button::Down => self.down,
            Button::Left => self.left,
            Button::Right => self.right,
            Button::Start => self.start,
            Button::Select => self.select,
            Button::A => self.a,
            Button::B => self.b,
        }
    }

    /// A joypad with every button released.
    pub fn new() -> (joypad: Self)
        ensures
            forall|button: Button| !joypad.is_down(button),
    {
        Self {
            up: false,
            down: false,
            left: false,
            right: false,
            start: false,
            select: false,
            a: false,
            b: false,
        }
    }

    /// Records that `button` is now in `state`; the other buttons stay as
    /// they are.
    pub fn set(&mut self, button: Button, state: ButtonState)
        ensures
            forall|other: Button|
                #[trigger] final(self).is_down(other) == (if other == button {
                    state == ButtonState::Down
                } else {
                    old(self).is_down(other)
                }),
    {
        let held = match state {
            ButtonState::Up => false,
            ButtonState::Down => true,
        };
        match button {
            Button::Up => self.up = held,
            Button::Down => self.down = held,
            Button::Left => self.left = held,
            Button::Right => self.right = held,
            Button::Start => self.start = held,
            Button::Select => self.select = held,
            Button::A => self.a = held,
            Button::B => self.b = held,
        }
    }

    /// Whether `button` is held.
    pub fn pressed(&self, button: Button) -> (held: bool)
        ensures
            held == self.is_down(button),
    {
        match button {
            Button::Up => self.up,
            Button::Down => self.down,
            Button::Left => self.left,
            Button::Right => self.right,
            Button::Start => self.start,
            Button::Select => self.select,
            Button::A => self.a,
            Button::B => self.b,
        }
    }
}

} // verus!
