//! Button input.
//!
//! The host reads the hardware key registers once per frame and hands the
//! result to the library as an `InputFrame`: one bitmask each of the keys
//! newly pressed this frame, the keys currently held, and the keys
//! eligible for key repeat.

use vstd::prelude::*;

verus! {

/// One hardware button.
#[derive(Clone, Copy, PartialEq, Eq, Structural, Debug)]
pub enum Button {
    A,
    B,
    Select,
    Start,
    Right,
    Left,
    Up,
    Down,
    R,
    L,
}

impl Button {
    /// The button's bit in the hardware key registers.
    pub open spec fn spec_code(self) -> u16 {
        match self {
            Button::A => 0x1,
            Button::B => 0x2,
            Button::Select => 0x4,
            Button::Start => 0x8,
            Button::Right => 0x10,
            Button::Left => 0x20,
            Button::Up => 0x40,
            Button::Down => 0x80,
            Button::R => 0x100,
            Button::L => 0x200,
        }
    }

    /// The button's bit in the hardware key registers.
    pub fn code(self) -> (r: u16)
        ensures
            r == self.spec_code(),
    {
        match self {
            Button::A => 0x1,
            Button::B => 0x2,
            Button::Select => 0x4,
            Button::Start => 0x8,
            Button::Right => 0x10,
            Button::Left => 0x20,
            Button::Up => 0x40,
            Button::Down => 0x80,
            Button::R => 0x100,
            Button::L => 0x200,
        }
    }

    /// Whether this button was newly pressed in `frame`.
    pub fn pressed(self, frame: &InputFrame) -> (r: bool)
        ensures
            r == self.spec_pressed(*frame),
    {
        frame.new_keys & self.code() != 0
    }

    pub open spec fn spec_pressed(self, frame: InputFrame) -> bool {
        frame.new_keys & self.spec_code() != 0
    }

    /// Whether this button is held down in `frame`.
    pub fn held(self, frame: &InputFrame) -> (r: bool)
        ensures
            r == (frame.held_keys & self.spec_code() != 0),
    {
        frame.held_keys & self.code() != 0
    }

    /// Whether this button registers for key repeat in `frame`.
    pub fn repeat(self, frame: &InputFrame) -> (r: bool)
        ensures
            r == (frame.repeat_keys & self.spec_code() != 0),
    {
        frame.repeat_keys & self.code() != 0
    }
}

/// The key registers as sampled by the host for one frame.
#[derive(Clone, Copy, PartialEq, Eq, Structural, Debug)]
pub struct InputFrame {
    /// Keys that went down this frame.
    pub new_keys: u16,
    /// Keys currently held down.
    pub held_keys: u16,
    /// Keys newly pressed or repeating.
    pub repeat_keys: u16,
}

impl InputFrame {
    /// A frame in which no key is active.
    pub fn idle() -> (f: InputFrame)
        ensures
            f.new_keys == 0 && f.held_keys == 0 && f.repeat_keys == 0,
    {
        InputFrame { new_keys: 0, held_keys: 0, repeat_keys: 0 }
    }

    /// A frame in which exactly `button` went down.
    pub fn press(button: Button) -> (f: InputFrame)
        ensures
            f.new_keys == button.spec_code(),
            f.held_keys == button.spec_code(),
            f.repeat_keys == button.spec_code(),
    {
        let code = button.code();
        InputFrame { new_keys: code, held_keys: code, repeat_keys: code }
    }
}

} // verus!
