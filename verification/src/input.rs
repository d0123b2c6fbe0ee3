//! Controller state as the console reads it.

use vstd::prelude::*;

verus! {

/// A controller port.
#[derive(Debug, Copy, Clone, PartialEq, Eq, Hash, Structural)]
pub enum Slot {
    One,
    Two,
    Three,
    Four,
}

/// A button of a controller, turbo buttons included.
#[derive(Debug, Copy, Clone, PartialEq, Eq, Hash, Structural)]
pub enum JoypadBtn {
    Left,
    Right,
    Up,
    Down,
    A,
    B,
    TurboA,
    TurboB,
    Select,
    Start,
}

/// Which buttons of one controller are held.
#[derive(Debug, Copy, Clone, PartialEq, Eq, Hash, Structural)]
pub struct Gamepad {
    pub left: bool,
    pub right: bool,
    pub up: bool,
    pub down: bool,
    pub a: bool,
    pub b: bool,
    pub turbo_a: bool,
    pub turbo_b: bool,
    pub select: bool,
    pub start: bool,
}

impl Gamepad {
    /// A controller with every button released.
    pub open spec fn spec_released() -> Gamepad {
        Gamepad {
            left: false,
            right: false,
            up: false,
            down: false,
            a: false,
            b: false,
            turbo_a: false,
            turbo_b: false,
            select: false,
            start: false,
        }
    }

    /// Whether `button` is held.
    pub open spec fn spec_button(self, button: JoypadBtn) -> bool {
        match button {
            JoypadBtn::Left => self.left,
            JoypadBtn::Right => self.right,
            JoypadBtn::Up => self.up,
            JoypadBtn::Down => self.down,
            JoypadBtn::A => self.a,
            JoypadBtn::B => self.b,
            JoypadBtn::TurboA => self.turbo_a,
            JoypadBtn::TurboB => self.turbo_b,
            JoypadBtn::Select => self.select,
            JoypadBtn::Start => self.start,
        }
    }

    /// This controller with `button` held or released and the others as
    /// they were.
    pub open spec fn spec_set_button(self, button: JoypadBtn, pressed: bool) -> Gamepad {
        match button {
            JoypadBtn::Left => Gamepad { left: pressed, ..self },
            JoypadBtn::Right => Gamepad { right: pressed, ..self },
            JoypadBtn::Up => Gamepad { up: pressed, ..self },
            JoypadBtn::Down => Gamepad { down: pressed, ..self },
            JoypadBtn::A => Gamepad { a: pressed, ..self },
            JoypadBtn::B => Gamepad { b: pressed, ..self },
            JoypadBtn::TurboA => Gamepad { turbo_a: pressed, ..self },
            JoypadBtn::TurboB => Gamepad { turbo_b: pressed, ..self },
            JoypadBtn::Select => Gamepad { select: pressed, ..self },
            JoypadBtn::Start => Gamepad { start: pressed, ..self },
        }
    }

    /// While a turbo button is held, its primary button follows the turbo
    /// phase; otherwise it is left alone.
    pub open spec fn spec_clock_turbo(self, turbo: bool) -> Gamepad {
        Gamepad {
            a: if self.turbo_a {
                turbo
            } else {
                self.a
            },
            b: if self.turbo_b {
                turbo
            } else {
                self.b
            },
            ..self
        }
    }

    pub fn new() -> (pad: Gamepad)
        ensures
            pad == Gamepad::spec_released(),
    {
        Gamepad {
            left: false,
            right: false,
            up: false,
            down: false,
            a: false,
            b: false,
            turbo_a: false,
            turbo_b: false,
            select: false,
            start: false,
        }
    }

    pub fn button(&self, button: JoypadBtn) -> (held: bool)
        ensures
            held == self.spec_button(button),
    {
        match button {
            JoypadBtn::Left => self.left,
            JoypadBtn::Right => self.right,
            JoypadBtn::Up => self.up,
            JoypadBtn::Down => self.down,
            JoypadBtn::A => self.a,
            JoypadBtn::B => self.b,
            JoypadBtn::TurboA => self.turbo_a,
            JoypadBtn::TurboB => self.turbo_b,
            JoypadBtn::Select => self.select,
            JoypadBtn::Start => self.start,
        }
    }

    pub fn set_button(&mut self, button: JoypadBtn, pressed: bool)
        ensures
            *final(self) == old(self).spec_set_button(button, pressed),
    {
        match button {
            JoypadBtn::Left => self.left = pressed,
            JoypadBtn::Right => self.right = pressed,
            JoypadBtn::Up => self.up = pressed,
            JoypadBtn::Down => self.down = pressed,
            JoypadBtn::A => self.a = pressed,
            JoypadBtn::B => self.b = pressed,
            JoypadBtn::TurboA => self.turbo_a = pressed,
            JoypadBtn::TurboB => self.turbo_b = pressed,
            JoypadBtn::Select => self.select = pressed,
            JoypadBtn::Start => self.start = pressed,
        }
    }

    /// Applies the turbo phase to the buttons whose turbo button is held.
    pub fn clock_turbo(&mut self, turbo: bool)
        ensures
            *final(self) == old(self).spec_clock_turbo(turbo),
    {
        if self.turbo_a {
            self.a = turbo;
        }
        if self.turbo_b {
            self.b = turbo;
        }
    }
}

/// Setting a button makes it read back as set and leaves every other
/// button as it was.
pub proof fn lemma_set_button_reads_back(
    pad: Gamepad,
    button: JoypadBtn,
    pressed: bool,
    other: JoypadBtn,
)
    ensures
        pad.spec_set_button(button, pressed).spec_button(button) == pressed,
        other != button ==> pad.spec_set_button(button, pressed).spec_button(other)
            == pad.spec_button(other),
{
}

} // verus!
