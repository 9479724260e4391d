//! The joypad: which of the eight buttons are held, as the active-low byte the
//! shell writes to 0xFF00.

use vstd::prelude::*;

verus! {

/// The eight buttons of the console.
#[derive(Clone, Copy, Debug, PartialEq, Eq, Structural)]
pub enum Button {
    Right,
    Left,
    Up,
    Down,
    A,
    B,
    Start,
    Select,
}

/// The joypad bit of a button: bit 0 Right, 1 Left, 2 Up, 3 Down, 4 A, 5 B, 6 Start, 7 Select.
pub open spec fn button_bit(b: Button) -> u8 {
    match b {
        Button::Right => 0x01,
        Button::Left => 0x02,
        Button::Up => 0x04,
        Button::Down => 0x08,
        Button::A => 0x10,
        Button::B => 0x20,
        Button::Start => 0x40,
        Button::Select => 0x80,
    }
}

fn bit_of(button: Button) -> (r: u8)
    ensures
        r == button_bit(button),
{
    match button {
        Button::Right => 0x01,
        Button::Left => 0x02,
        Button::Up => 0x04,
        Button::Down => 0x08,
        Button::A => 0x10,
        Button::B => 0x20,
        Button::Start => 0x40,
        Button::Select => 0x80,
    }
}

/// The buttons held and the joypad byte they give.
pub struct Input {
    pressed: u8,
    joypad_state: u8,
}

impl Input {
    /// The set of held buttons, one bit each.
    pub closed spec fn held(&self) -> u8 {
        self.pressed
    }

    /// The joypad byte: a held button's bit is 0, every other bit is 1.
    pub closed spec fn state(&self) -> u8 {
        self.joypad_state
    }

    pub open spec fn wf(&self) -> bool {
        self.state() == !self.held()
    }

    /// No button held: the joypad byte is 0xFF.
    pub fn new() -> (r: Self)
        ensures
            r.wf(),
            r.held() == 0,
            r.state() == 0xFF,
    {
        assert(!0u8 == 0xFF) by (bit_vector);
        Input { pressed: 0, joypad_state: 0xFF }
    }

    /// A button goes down.
    pub fn key_down(&mut self, button: Button)
        requires
            old(self).wf(),
        ensures
            final(self).wf(),
            final(self).held() == old(self).held() | button_bit(button),
    {
        self.pressed = self.pressed | bit_of(button);
        self.update_joypad_state();
    }

    /// A button comes up.
    pub fn key_up(&mut self, button: Button)
        requires
            old(self).wf(),
        ensures
            final(self).wf(),
            final(self).held() == old(self).held() & !button_bit(button),
    {
        self.pressed = self.pressed & !bit_of(button);
        self.update_joypad_state();
    }

    fn update_joypad_state(&mut self)
        ensures
            final(self).held() == old(self).held(),
            final(self).wf(),
    {
        self.joypad_state = !self.pressed;
    }

    /// The joypad byte for 0xFF00.
    pub fn read_joypad(&self) -> (r: u8)
        ensures
            r == self.state(),
    {
        self.joypad_state
    }
}

impl Default for Input {
    fn default() -> (r: Self)
        ensures
            r.wf(),
            r.held() == 0,
            r.state() == 0xFF,
    {
        Input::new()
    }
}

} // verus!
