use vstd::prelude::*;
use crate::interrupts::{Interrupt, Interrupts};

verus! {

/// A button of the console.
#[derive(Debug, Clone, Copy, PartialEq, Eq, Structural)]
pub enum Button {
    A,
    B,
    Select,
    Start,
    Right,
    Left,
    Up,
    Down,
}

impl Button {
    /// The bit of this button in the pressed byte: action buttons in the low
    /// nibble, the direction pad in the high one.
    pub open spec fn mask(self) -> u8 {
        match self {
            Button::A => 0x01,
            Button::B => 0x02,
            Button::Select => 0x04,
            Button::Start => 0x08,
            Button::Right => 0x10,
            Button::Left => 0x20,
            Button::Up => 0x40,
            Button::Down => 0x80,
        }
    }

    /// Returns the bit of this button in the pressed byte.
    pub fn bit_mask(self) -> (r: u8)
        ensures
            r == self.mask(),
    {
        match self {
            Button::A => 0x01,
            Button::B => 0x02,
            Button::Select => 0x04,
            Button::Start => 0x08,
            Button::Right => 0x10,
            Button::Left => 0x20,
            Button::Up => 0x40,
            Button::Down => 0x80,
        }
    }
}

/// A change of a button's state.
#[derive(Debug, Clone, Copy, PartialEq, Eq, Structural)]
pub enum ButtonAction {
    Pressed,
    Released,
}

/// The low nibble of the joypad register for a pressed byte and a group selection.
pub open spec fn selected_nibble(pressed: u8, button_group: u8) -> u8 {
    let sel = (button_group >> 4) & 0x3;
    if sel == 1 {
        pressed & 0x0F
    } else if sel == 2 {
        (pressed & 0xF0) >> 4
    } else if sel == 0 {
        (pressed & 0x0F) & ((pressed & 0xF0) >> 4)
    } else {
        0x0F
    }
}

/// The button matrix: a 0 bit means pressed.
#[derive(Debug, Clone, Copy)]
pub struct Joypad {
    /// One bit per button, 0 when pressed.
    pub pressed: u8,
    /// The selected groups, bits 4 and 5 of the last write.
    pub button_group: u8,
}

impl Joypad {
    /// The pressed byte after an action on a button.
    pub open spec fn pressed_after(self, button: Button, action: ButtonAction) -> u8 {
        match action {
            ButtonAction::Pressed => self.pressed & !button.mask(),
            ButtonAction::Released => self.pressed | button.mask(),
        }
    }

    /// The low nibble that the register reads now.
    pub open spec fn nibble(self) -> u8 {
        selected_nibble(self.pressed, self.button_group)
    }

    /// Creates a joypad with every button released and no group selected.
    pub fn new() -> (r: Self)
        ensures
            r.pressed == 0xFF,
            r.button_group == 0x30,
    {
        Joypad { pressed: 0xFF, button_group: 0x30 }
    }

    /// Reads the joypad register.
    pub fn read_register(&self) -> (r: u8)
        ensures
            r == 0xC0 | self.button_group | self.nibble(),
    {
        let lower_nibble = self.register_value();
        0xC0 | self.button_group | lower_nibble
    }

    /// Writes the group selection; only bits 4 and 5 are kept.
    pub fn write_register(&mut self, value: u8)
        ensures
            final(self).button_group == value & 0x30,
            final(self).pressed == old(self).pressed,
    {
        self.button_group = value & 0x30;
    }

    /// Presses or releases a button, requesting the joypad interrupt when a
    /// bit of the selected nibble falls from 1 to 0.
    pub fn update_button_state(
        &mut self,
        interrupts: &mut Interrupts,
        button: Button,
        button_state: ButtonAction,
    )
        requires
            old(interrupts).wf(),
        ensures
            final(self).pressed == old(self).pressed_after(button, button_state),
            final(self).button_group == old(self).button_group,
            final(interrupts).wf(),
            final(interrupts).enabled == old(interrupts).enabled,
            final(interrupts).requested == if old(self).nibble() & !final(self).nibble() != 0 {
                old(interrupts).requested | Interrupt::Joypad.mask()
            } else {
                old(interrupts).requested
            },
    {
        let before_lower_nibble = self.register_value();
        let m = button.bit_mask();
        match button_state {
            ButtonAction::Pressed => self.pressed = self.pressed & !m,
            ButtonAction::Released => self.pressed = self.pressed | m,
        }
        let after_lower_nibble = self.register_value();
        if before_lower_nibble & !after_lower_nibble != 0 {
            interrupts.request_interrupt(Interrupt::Joypad);
        }
    }

    /// Returns the low nibble of the selected button groups.
    pub fn register_value(&self) -> (r: u8)
        ensures
            r == self.nibble(),
    {
        let sel = (self.button_group >> 4) & 0x3;
        if sel == 1 {
            self.pressed & 0x0F
        } else if sel == 2 {
            (self.pressed & 0xF0) >> 4
        } else if sel == 0 {
            (self.pressed & 0x0F) & ((self.pressed & 0xF0) >> 4)
        } else {
            0x0F
        }
    }
}

} // verus!
