//! The per-session controller snapshot that feeds standard input reports.
use vstd::prelude::*;

verus! {

/// One analog stick: two 12-bit axes, packed into three bytes on the wire.
#[derive(Clone, Copy, Debug, PartialEq, Eq, Structural)]
pub struct Stick {
    pub x: u16,
    pub y: u16,
}

/// Center of a 12-bit axis.
pub const STICK_CENTER: u16 = 0x800;

impl Stick {
    /// A stick at rest in the middle of both axes.
    pub fn new() -> (r: Stick)
        ensures
            r.x == STICK_CENTER,
            r.y == STICK_CENTER,
    {
        Stick { x: STICK_CENTER, y: STICK_CENTER }
    }
}

/// The three button bytes of a standard report, right-hand buttons first.
#[derive(Clone, Copy, Debug, PartialEq, Eq, Structural)]
pub struct ButtonsStatus {
    pub right: u8,
    pub middle: u8,
    pub left: u8,
}

impl ButtonsStatus {
    /// No button pressed.
    pub fn released() -> (r: ButtonsStatus)
        ensures
            r.right == 0 && r.middle == 0 && r.left == 0,
    {
        ButtonsStatus { right: 0, middle: 0, left: 0 }
    }
}

/// The input part of a standard report.
#[derive(Clone, Copy, Debug, PartialEq, Eq, Structural)]
pub struct StandardInputReport {
    pub timer: u8,
    pub info: u8,
    pub buttons: ButtonsStatus,
    pub left_stick: Stick,
    pub right_stick: Stick,
    pub vibrator: u8,
}

/// The report timer after one more report: it counts up and wraps from 255 to 0.
pub open spec fn next_timer(t: u8) -> u8 {
    if t == 255 {
        0
    } else {
        (t + 1) as u8
    }
}

/// The report timer after `n` more reports.
pub open spec fn timer_after(t: u8, n: nat) -> u8
    decreases n,
{
    if n == 0 {
        t
    } else {
        next_timer(timer_after(t, (n - 1) as nat))
    }
}

/// After `n` standard reports the timer has moved `n` steps modulo 256; in
/// particular 256 reports bring it back to where it started, having taken
/// every value in between exactly once in increasing order.
pub proof fn lemma_timer_after(t: u8, n: nat)
    ensures
        timer_after(t, n) as int == (t + n) % 256,
    decreases n,
{
    if n > 0 {
        lemma_timer_after(t, (n - 1) as nat);
    }
}

/// Current buttons, sticks and status of the emulated controller, with the
/// timer of the last standard report.
#[derive(Debug)]
pub struct ControllerState {
    timer: u8,
    buttons: ButtonsStatus,
    left_stick: Stick,
    right_stick: Stick,
    status: u8,
}

impl ControllerState {
    pub closed spec fn spec_timer(&self) -> u8 {
        self.timer
    }

    pub closed spec fn spec_buttons(&self) -> ButtonsStatus {
        self.buttons
    }

    pub closed spec fn spec_left_stick(&self) -> Stick {
        self.left_stick
    }

    pub closed spec fn spec_right_stick(&self) -> Stick {
        self.right_stick
    }

    pub closed spec fn spec_status(&self) -> u8 {
        self.status
    }

    /// The report that `self` describes, with its current timer.
    pub open spec fn snapshot(&self) -> StandardInputReport {
        StandardInputReport {
            timer: self.spec_timer(),
            info: self.spec_status(),
            buttons: self.spec_buttons(),
            left_stick: self.spec_left_stick(),
            right_stick: self.spec_right_stick(),
            vibrator: 0,
        }
    }

    /// `self` and `other` differ at most in their timer.
    pub open spec fn same_inputs(&self, other: &ControllerState) -> bool {
        &&& self.spec_buttons() == other.spec_buttons()
        &&& self.spec_left_stick() == other.spec_left_stick()
        &&& self.spec_right_stick() == other.spec_right_stick()
        &&& self.spec_status() == other.spec_status()
    }

    /// A fresh state: timer zero, nothing pressed, both sticks centered.
    pub fn new() -> (r: Self)
        ensures
            r.spec_timer() == 0,
            r.spec_buttons() == (ButtonsStatus { right: 0, middle: 0, left: 0 }),
            r.spec_left_stick() == (Stick { x: STICK_CENTER, y: STICK_CENTER }),
            r.spec_right_stick() == (Stick { x: STICK_CENTER, y: STICK_CENTER }),
            r.spec_status() == 0,
    {
        Self {
            timer: 0,
            buttons: ButtonsStatus::released(),
            left_stick: Stick::new(),
            right_stick: Stick::new(),
            status: 0,
        }
    }

    /// Advances the report timer by one, wrapping from 255 to 0, and returns
    /// the current inputs stamped with the new timer.
    pub fn standard(&mut self) -> (r: StandardInputReport)
        ensures
            final(self).spec_timer() == next_timer(old(self).spec_timer()),
            final(self).same_inputs(old(self)),
            r == final(self).snapshot(),
    {
        if self.timer == 255 {
            self.timer = 0
        } else {
            self.timer += 1
        }
        StandardInputReport {
            timer: self.timer,
            info: self.status,
            buttons: self.buttons,
            left_stick: self.left_stick,
            right_stick: self.right_stick,
            vibrator: 0,
        }
    }

    pub fn timer(&self) -> (r: u8)
        ensures
            r == self.spec_timer(),
    {
        self.timer
    }

    pub fn set_buttons(&mut self, buttons: ButtonsStatus)
        ensures
            final(self).spec_buttons() == buttons,
            final(self).spec_timer() == old(self).spec_timer(),
            final(self).spec_left_stick() == old(self).spec_left_stick(),
            final(self).spec_right_stick() == old(self).spec_right_stick(),
            final(self).spec_status() == old(self).spec_status(),
    {
        self.buttons = buttons;
    }

    pub fn set_sticks(&mut self, left: Stick, right: Stick)
        ensures
            final(self).spec_left_stick() == left,
            final(self).spec_right_stick() == right,
            final(self).spec_timer() == old(self).spec_timer(),
            final(self).spec_buttons() == old(self).spec_buttons(),
            final(self).spec_status() == old(self).spec_status(),
    {
        self.left_stick = left;
        self.right_stick = right;
    }

    pub fn set_status(&mut self, status: u8)
        ensures
            final(self).spec_status() == status,
            final(self).spec_timer() == old(self).spec_timer(),
            final(self).spec_buttons() == old(self).spec_buttons(),
            final(self).spec_left_stick() == old(self).spec_left_stick(),
            final(self).spec_right_stick() == old(self).spec_right_stick(),
    {
        self.status = status;
    }
}

} // verus!
