//! A simple gamepad report: a button bitfield, two 8-bit sticks, two
//! triggers and a battery level.
use vstd::prelude::*;

verus! {

/// The buttons of the simple report, each one bit of its bitfield.
#[derive(Clone, Copy, Debug, PartialEq, Eq, Structural)]
pub enum Button {
    A,
    B,
    X,
    Y,
    LeftBumper,
    RightBumper,
    Select,
    Start,
    LeftStickButton,
    RightStickButton,
    DpadUp,
    DpadDown,
    DpadLeft,
    DpadRight,
}

/// Position of a button's bit in the bitfield.
pub open spec fn button_bit(b: Button) -> u16 {
    match b {
        Button::A => 0,
        Button::B => 1,
        Button::X => 2,
        Button::Y => 3,
        Button::LeftBumper => 4,
        Button::RightBumper => 5,
        Button::Select => 6,
        Button::Start => 7,
        Button::LeftStickButton => 8,
        Button::RightStickButton => 9,
        Button::DpadUp => 10,
        Button::DpadDown => 11,
        Button::DpadLeft => 12,
        Button::DpadRight => 13,
    }
}

pub open spec fn button_mask(b: Button) -> u16 {
    (1u16 << button_bit(b)) as u16
}

/// Whether button `b` is pressed in the bitfield `buttons`.
pub open spec fn pressed(buttons: u16, b: Button) -> bool {
    buttons & button_mask(b) != 0
}

impl Button {
    /// The bit of this button in the bitfield.
    pub fn mask(&self) -> (r: u16)
        ensures
            r == button_mask(*self),
    {
        let r: u16 = match self {
            Button::A => 1 << 0,
            Button::B => 1 << 1,
            Button::X => 1 << 2,
            Button::Y => 1 << 3,
            Button::LeftBumper => 1 << 4,
            Button::RightBumper => 1 << 5,
            Button::Select => 1 << 6,
            Button::Start => 1 << 7,
            Button::LeftStickButton => 1 << 8,
            Button::RightStickButton => 1 << 9,
            Button::DpadUp => 1 << 10,
            Button::DpadDown => 1 << 11,
            Button::DpadLeft => 1 << 12,
            Button::DpadRight => 1 << 13,
        };
        r
    }
}

proof fn lemma_bit_update(x: u16, i: u16, j: u16)
    requires
        i < 16,
        j < 16,
    ensures
        ((x | (1u16 << i)) & (1u16 << j) != 0) == (i == j || x & (1u16 << j) != 0),
        ((x & !(1u16 << i)) & (1u16 << j) != 0) == (i != j && x & (1u16 << j) != 0),
{
    assert(((x | (1u16 << i)) & (1u16 << j) != 0) == (i == j || x & (1u16 << j) != 0))
        by (bit_vector)
        requires
            i < 16,
            j < 16,
    ;
    assert(((x & !(1u16 << i)) & (1u16 << j) != 0) == (i != j && x & (1u16 << j) != 0))
        by (bit_vector)
        requires
            i < 16,
            j < 16,
    ;
}

/// The simple gamepad report.
#[derive(Debug)]
pub struct UsbSwitchProControllerReport {
    pub buttons: u16,
    pub left_stick_x: i8,
    pub left_stick_y: i8,
    pub right_stick_x: i8,
    pub right_stick_y: i8,
    pub left_trigger: u8,
    pub right_trigger: u8,
    pub battery_life: u8,
}

impl UsbSwitchProControllerReport {
    /// Nothing pressed, sticks at rest, triggers released, battery full.
    pub fn new() -> (r: Self)
        ensures
            r.buttons == 0,
            r.left_stick_x == 127 && r.left_stick_y == 127,
            r.right_stick_x == 127 && r.right_stick_y == 127,
            r.left_trigger == 0 && r.right_trigger == 0,
            r.battery_life == 100,
    {
        UsbSwitchProControllerReport {
            buttons: 0,
            left_stick_x: 127,
            left_stick_y: 127,
            right_stick_x: 127,
            right_stick_y: 127,
            left_trigger: 0,
            right_trigger: 0,
            battery_life: 100,
        }
    }

    /// Presses or releases `button`; every other button keeps its state.
    pub fn set_button(&mut self, button: Button, value: bool)
        ensures
            final(self).buttons == (if value {
                old(self).buttons | button_mask(button)
            } else {
                old(self).buttons & !button_mask(button)
            }),
            forall|b: Button|
                #[trigger] pressed(final(self).buttons, b) == (if b == button {
                    value
                } else {
                    pressed(old(self).buttons, b)
                }),
            final(self).left_stick_x == old(self).left_stick_x,
            final(self).left_stick_y == old(self).left_stick_y,
            final(self).right_stick_x == old(self).right_stick_x,
            final(self).right_stick_y == old(self).right_stick_y,
            final(self).left_trigger == old(self).left_trigger,
            final(self).right_trigger == old(self).right_trigger,
            final(self).battery_life == old(self).battery_life,
    {
        let mask = button.mask();
        let ghost before = self.buttons;
        if value {
            self.buttons |= mask;
        } else {
            self.buttons &= !mask;
        }
        proof {
            assert forall|b: Button|
                #[trigger] pressed(self.buttons, b) == (if b == button {
                    value
                } else {
                    pressed(before, b)
                }) by {
                lemma_bit_update(before, button_bit(button), button_bit(b));
            }
        }
    }

    /// Whether `button` is pressed.
    pub fn get_button(&self, button: Button) -> (r: bool)
        ensures
            r == pressed(self.buttons, button),
    {
        (self.buttons & button.mask()) != 0
    }

    pub fn set_left_stick(&mut self, x: i8, y: i8)
        ensures
            *final(self) == (UsbSwitchProControllerReport {
                left_stick_x: x,
                left_stick_y: y,
                ..*old(self)
            }),
    {
        self.left_stick_x = x;
        self.left_stick_y = y;
    }

    pub fn set_right_stick(&mut self, x: i8, y: i8)
        ensures
            *final(self) == (UsbSwitchProControllerReport {
                right_stick_x: x,
                right_stick_y: y,
                ..*old(self)
            }),
    {
        self.right_stick_x = x;
        self.right_stick_y = y;
    }

    pub fn set_triggers(&mut self, left_trigger: u8, right_trigger: u8)
        ensures
            *final(self) == (UsbSwitchProControllerReport {
                left_trigger,
                right_trigger,
                ..*old(self)
            }),
    {
        self.left_trigger = left_trigger;
        self.right_trigger = right_trigger;
    }

    pub fn set_battery_life(&mut self, battery_life: u8)
        ensures
            *final(self) == (UsbSwitchProControllerReport { battery_life, ..*old(self) }),
    {
        self.battery_life = battery_life;
    }
}

} // verus!
