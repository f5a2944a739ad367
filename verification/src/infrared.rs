use vstd::prelude::*;
use crate::cpu::bit_value;
use crate::types::byte::Byte;

verus! {

/// The infrared port behind the register at `0xFF56`.
#[derive(Clone, Copy, Debug, PartialEq, Eq, Structural)]
pub struct Infrared {
    pub read_enabled: bool,
    pub reading: bool,
    pub led_active: bool,
}

impl Infrared {
    /// The port at rest: light off, receiver off, the receive line high.
    pub open spec fn idle() -> Infrared {
        Infrared { read_enabled: false, reading: true, led_active: false }
    }

    /// What the register reads: the light in bit 0, the receive line in
    /// bit 1, the receiver enable in bits 6 and 7.
    pub open spec fn register(self) -> Byte {
        Byte(
            (bit_value(self.led_active) + 2 * bit_value(self.reading) + 192 * bit_value(
                self.read_enabled,
            )) as u8,
        )
    }

    /// The state after a write: bit 0 drives the light, bit 7 the receiver
    /// enable; the receive line is not writable.
    pub open spec fn written(self, value: Byte) -> Infrared {
        Infrared { led_active: value.bit(0), read_enabled: value.bit(7), ..self }
    }

    /// A port at rest.
    pub fn new() -> (out: Infrared)
        ensures
            out == Infrared::idle(),
    {
        Infrared { read_enabled: false, reading: true, led_active: false }
    }

    /// Reads the register.
    pub fn read(&self) -> (out: Byte)
        ensures
            out == self.register(),
    {
        let mut value = Byte(0);
        value.write_bit(0, self.led_active);
        assert(value.0 == bit_value(self.led_active));
        value.write_bit(1, self.reading);
        assert(value.0 == bit_value(self.led_active) + 2 * bit_value(self.reading));
        value.write_bit(6, self.read_enabled);
        assert(value.0 == bit_value(self.led_active) + 2 * bit_value(self.reading) + 64
            * bit_value(self.read_enabled));
        value.write_bit(7, self.read_enabled);
        value
    }

    /// Writes the register.
    pub fn write(&mut self, value: Byte)
        ensures
            *final(self) == old(self).written(value),
    {
        self.led_active = value.is_bit_set(0);
        self.read_enabled = value.is_bit_set(7);
    }
}

impl Default for Infrared {
    fn default() -> (out: Infrared)
        ensures
            out == Infrared::idle(),
    {
        Infrared::new()
    }
}

} // verus!
