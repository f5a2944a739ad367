use vstd::prelude::*;
use crate::cpu::bit_value;
use crate::frontend::KeyCode;
use crate::types::byte::Byte;

verus! {

/// The key matrix behind the register at `0xFF00`.
///
/// A pressed key reads as a one in the selected row.
#[derive(Clone, Copy, Debug, PartialEq, Eq, Structural)]
pub struct Joypad {
    pub a: bool,
    pub b: bool,
    pub start: bool,
    pub select: bool,
    pub up: bool,
    pub down: bool,
    pub left: bool,
    pub right: bool,
    pub actions: bool,
    pub directions: bool,
}

impl Joypad {
    /// No key pressed, no row selected.
    pub open spec fn idle() -> Joypad {
        Joypad {
            a: false,
            b: false,
            start: false,
            select: false,
            up: false,
            down: false,
            left: false,
            right: false,
            actions: false,
            directions: false,
        }
    }

    /// The state with `key` held down (`pressed`) or let go.
    pub open spec fn with_key(self, key: KeyCode, pressed: bool) -> Joypad {
        match key {
            KeyCode::Up => Joypad { up: pressed, ..self },
            KeyCode::Down => Joypad { down: pressed, ..self },
            KeyCode::Left => Joypad { left: pressed, ..self },
            KeyCode::Right => Joypad { right: pressed, ..self },
            KeyCode::A => Joypad { a: pressed, ..self },
            KeyCode::B => Joypad { b: pressed, ..self },
            KeyCode::Start => Joypad { start: pressed, ..self },
            KeyCode::Select => Joypad { select: pressed, ..self },
        }
    }

    /// Whether `key` is held down.
    pub open spec fn key(self, key: KeyCode) -> bool {
        match key {
            KeyCode::Up => self.up,
            KeyCode::Down => self.down,
            KeyCode::Left => self.left,
            KeyCode::Right => self.right,
            KeyCode::A => self.a,
            KeyCode::B => self.b,
            KeyCode::Start => self.start,
            KeyCode::Select => self.select,
        }
    }

    /// What the register reads: the nibble of the one selected row, zero
    /// when none or both are selected.
    pub open spec fn register(self) -> Byte {
        if self.actions && !self.directions {
            Byte(
                (bit_value(self.a) + 2 * bit_value(self.b) + 4 * bit_value(self.select) + 8
                    * bit_value(self.start)) as u8,
            )
        } else if self.directions && !self.actions {
            Byte(
                (bit_value(self.right) + 2 * bit_value(self.left) + 4 * bit_value(self.up) + 8
                    * bit_value(self.down)) as u8,
            )
        } else {
            Byte(0)
        }
    }

    /// The state after a write: bit 4 selects the direction row, bit 5 the
    /// action row; the keys are untouched.
    pub open spec fn selected(self, value: Byte) -> Joypad {
        Joypad { directions: value.bit(4), actions: value.bit(5), ..self }
    }

    /// A joypad with no key pressed and no row selected.
    pub fn new() -> (out: Joypad)
        ensures
            out == Joypad::idle(),
    {
        Joypad {
            a: false,
            b: false,
            start: false,
            select: false,
            up: false,
            down: false,
            left: false,
            right: false,
            actions: false,
            directions: false,
        }
    }

    /// Marks `key` as held down.
    pub fn press(&mut self, key: KeyCode)
        ensures
            *final(self) == old(self).with_key(key, true),
    {
        match key {
            KeyCode::Up => self.up = true,
            KeyCode::Down => self.down = true,
            KeyCode::Left => self.left = true,
            KeyCode::Right => self.right = true,
            KeyCode::A => self.a = true,
            KeyCode::B => self.b = true,
            KeyCode::Start => self.start = true,
            KeyCode::Select => self.select = true,
        }
    }

    /// Marks `key` as let go.
    pub fn release(&mut self, key: KeyCode)
        ensures
            *final(self) == old(self).with_key(key, false),
    {
        match key {
            KeyCode::Up => self.up = false,
            KeyCode::Down => self.down = false,
            KeyCode::Left => self.left = false,
            KeyCode::Right => self.right = false,
            KeyCode::A => self.a = false,
            KeyCode::B => self.b = false,
            KeyCode::Start => self.start = false,
            KeyCode::Select => self.select = false,
        }
    }

    /// Reads the register.
    pub fn read(&self) -> (out: Byte)
        ensures
            out == self.register(),
    {
        let mut out = Byte(0);
        if self.actions && !self.directions {
            out.write_bit(0, self.a);
            assert(out.0 == bit_value(self.a));
            out.write_bit(1, self.b);
            assert(out.0 == bit_value(self.a) + 2 * bit_value(self.b));
            out.write_bit(2, self.select);
            assert(out.0 == bit_value(self.a) + 2 * bit_value(self.b) + 4 * bit_value(
                self.select,
            ));
            out.write_bit(3, self.start);
        } else if self.directions && !self.actions {
            out.write_bit(0, self.right);
            assert(out.0 == bit_value(self.right));
            out.write_bit(1, self.left);
            assert(out.0 == bit_value(self.right) + 2 * bit_value(self.left));
            out.write_bit(2, self.up);
            assert(out.0 == bit_value(self.right) + 2 * bit_value(self.left) + 4 * bit_value(
                self.up,
            ));
            out.write_bit(3, self.down);
        }
        out
    }

    /// Writes the register: only the two row-select bits are taken.
    pub fn write(&mut self, value: Byte)
        ensures
            *final(self) == old(self).selected(value),
    {
        self.directions = value.is_bit_set(4);
        self.actions = value.is_bit_set(5);
    }
}

impl Default for Joypad {
    fn default() -> (out: Joypad)
        ensures
            out == Joypad::idle(),
    {
        Joypad::new()
    }
}

/// A key reads as pressed from its press until its release, whatever
/// happens to the other keys.
pub proof fn lemma_key_press_release(pad: Joypad, key: KeyCode, other: KeyCode, pressed: bool)
    ensures
        pad.with_key(key, pressed).key(key) == pressed,
        other != key ==> pad.with_key(key, pressed).key(other) == pad.key(other),
        pad.with_key(key, pressed).actions == pad.actions,
        pad.with_key(key, pressed).directions == pad.directions,
{
}

} // verus!
