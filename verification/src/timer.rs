use vstd::prelude::*;
use crate::cpu::bit_value;
use crate::types::address::Address;
use crate::types::byte::Byte;

verus! {

/// The four rates at which the counter can run, named by the number of
/// ticks between two increments.
#[derive(Clone, Copy, Debug, PartialEq, Eq, Structural)]
pub enum ClockSpeed {
    C1024,
    C16,
    C64,
    C256,
}

impl ClockSpeed {
    /// The number of ticks between two increments of the counter.
    pub open spec fn period(self) -> int {
        match self {
            ClockSpeed::C1024 => 1024,
            ClockSpeed::C16 => 16,
            ClockSpeed::C64 => 64,
            ClockSpeed::C256 => 256,
        }
    }

    /// The two-bit code of the rate in the control register.
    pub open spec fn code(self) -> int {
        match self {
            ClockSpeed::C1024 => 0,
            ClockSpeed::C16 => 1,
            ClockSpeed::C64 => 2,
            ClockSpeed::C256 => 3,
        }
    }

    /// The rate selected by the low two bits of `value`.
    pub open spec fn from_code(value: Byte) -> ClockSpeed {
        if value.0 % 4 == 0 {
            ClockSpeed::C1024
        } else if value.0 % 4 == 1 {
            ClockSpeed::C16
        } else if value.0 % 4 == 2 {
            ClockSpeed::C64
        } else {
            ClockSpeed::C256
        }
    }

    /// The number of ticks between two increments of the counter.
    pub fn ticks(self) -> (out: u16)
        ensures
            out == self.period(),
    {
        match self {
            ClockSpeed::C1024 => 1024,
            ClockSpeed::C16 => 16,
            ClockSpeed::C64 => 64,
            ClockSpeed::C256 => 256,
        }
    }
}

/// The programmable timer behind the registers at `0xFF04` to `0xFF07`.
///
/// `elapsed` counts the ticks since the counter last moved and stays below
/// the period of the selected rate.
#[derive(Clone, Copy, Debug, PartialEq, Eq, Structural)]
pub struct Timer {
    pub divider: Byte,
    pub counter: Byte,
    pub modulo: Byte,
    pub enabled: bool,
    pub clock_speed: ClockSpeed,
    pub elapsed: u16,
}

impl Timer {
    /// The timer at rest.
    pub open spec fn idle() -> Timer {
        Timer {
            divider: Byte(0),
            counter: Byte(0),
            modulo: Byte(0),
            enabled: false,
            clock_speed: ClockSpeed::C1024,
            elapsed: 0,
        }
    }

    /// The tick count stays below the selected period.
    pub open spec fn wf(self) -> bool {
        self.elapsed < self.clock_speed.period()
    }

    /// Whether the next tick moves the counter.
    pub open spec fn counter_due(self) -> bool {
        self.enabled && self.elapsed + 1 == self.clock_speed.period()
    }

    /// Whether the next tick overflows the counter and so raises the timer
    /// interrupt.
    pub open spec fn overflows(self) -> bool {
        self.counter_due() && self.counter.0 == 255
    }

    /// The state one tick later. The divider always advances; the counter
    /// advances once per period while enabled and reloads from the modulo
    /// when it overflows.
    pub open spec fn ticked(self) -> Timer {
        let divider = Byte(((self.divider.0 + 1) % 256) as u8);
        if !self.enabled {
            Timer { divider, ..self }
        } else if !self.counter_due() {
            Timer { divider, elapsed: (self.elapsed + 1) as u16, ..self }
        } else if self.counter.0 == 255 {
            Timer { divider, elapsed: 0, counter: self.modulo, ..self }
        } else {
            Timer { divider, elapsed: 0, counter: Byte((self.counter.0 + 1) as u8), ..self }
        }
    }

    /// What the control register reads: the enable in bit 2, the rate code
    /// in bits 1 and 0.
    pub open spec fn control(self) -> Byte {
        Byte((4 * bit_value(self.enabled) + self.clock_speed.code()) as u8)
    }

    /// The state after a write to the control register; the tick count
    /// starts afresh.
    pub open spec fn with_control(self, value: Byte) -> Timer {
        Timer {
            enabled: value.bit(2),
            clock_speed: ClockSpeed::from_code(value),
            elapsed: 0,
            ..self
        }
    }

    /// What the register at `address` reads.
    pub open spec fn register(self, address: Address) -> Byte
        recommends
            0xFF04 <= address.0 <= 0xFF07,
    {
        if address.0 == 0xFF04 {
            self.divider
        } else if address.0 == 0xFF05 {
            self.counter
        } else if address.0 == 0xFF06 {
            self.modulo
        } else {
            self.control()
        }
    }

    /// The state after `value` is written to the register at `address`. Any
    /// write to the divider clears it.
    pub open spec fn with_register(self, address: Address, value: Byte) -> Timer
        recommends
            0xFF04 <= address.0 <= 0xFF07,
    {
        if address.0 == 0xFF04 {
            Timer { divider: Byte(0), ..self }
        } else if address.0 == 0xFF05 {
            Timer { counter: value, ..self }
        } else if address.0 == 0xFF06 {
            Timer { modulo: value, ..self }
        } else {
            self.with_control(value)
        }
    }

    /// A timer at rest.
    pub fn new() -> (out: Timer)
        ensures
            out == Timer::idle(),
            out.wf(),
    {
        Timer {
            divider: Byte(0),
            counter: Byte(0),
            modulo: Byte(0),
            enabled: false,
            clock_speed: ClockSpeed::C1024,
            elapsed: 0,
        }
    }

    /// Tests the state invariant.
    pub fn is_valid(&self) -> (out: bool)
        ensures
            out == self.wf(),
    {
        self.elapsed < self.clock_speed.ticks()
    }

    /// Advances the timer by one tick and reports whether the counter
    /// overflowed, which requests the timer interrupt.
    pub fn tick(&mut self) -> (interrupt: bool)
        requires
            old(self).wf(),
        ensures
            *final(self) == old(self).ticked(),
            interrupt == old(self).overflows(),
            final(self).wf(),
    {
        self.divider = Byte(self.divider.0.wrapping_add(1));
        if !self.enabled {
            return false;
        }
        if self.elapsed + 1 < self.clock_speed.ticks() {
            self.elapsed = self.elapsed + 1;
            return false;
        }
        self.elapsed = 0;
        match self.counter.0.checked_add(1) {
            Some(v) => {
                self.counter = Byte(v);
                false
            },
            None => {
                self.counter = self.modulo;
                true
            },
        }
    }

    /// Reads one of the four registers.
    pub fn read(&self, address: Address) -> (out: Byte)
        requires
            0xFF04 <= address.0 <= 0xFF07,
        ensures
            out == self.register(address),
    {
        if address.0 == 0xFF04 {
            self.read_divider()
        } else if address.0 == 0xFF05 {
            self.read_counter()
        } else if address.0 == 0xFF06 {
            self.read_modulo()
        } else {
            self.read_control()
        }
    }

    /// Writes one of the four registers.
    pub fn write(&mut self, address: Address, value: Byte)
        requires
            0xFF04 <= address.0 <= 0xFF07,
            old(self).wf(),
        ensures
            *final(self) == old(self).with_register(address, value),
            final(self).wf(),
    {
        if address.0 == 0xFF04 {
            self.write_divider(value)
        } else if address.0 == 0xFF05 {
            self.write_counter(value)
        } else if address.0 == 0xFF06 {
            self.write_modulo(value)
        } else {
            self.write_control(value)
        }
    }

    /// Reads the divider.
    pub fn read_divider(&self) -> (out: Byte)
        ensures
            out == self.divider,
    {
        self.divider
    }

    /// Clears the divider, whatever is written.
    pub fn write_divider(&mut self, value: Byte)
        ensures
            *final(self) == (Timer { divider: Byte(0), ..*old(self) }),
    {
        self.divider = Byte(0);
    }

    /// Reads the counter.
    pub fn read_counter(&self) -> (out: Byte)
        ensures
            out == self.counter,
    {
        self.counter
    }

    /// Sets the counter.
    pub fn write_counter(&mut self, value: Byte)
        ensures
            *final(self) == (Timer { counter: value, ..*old(self) }),
    {
        self.counter = value;
    }

    /// Reads the modulo.
    pub fn read_modulo(&self) -> (out: Byte)
        ensures
            out == self.modulo,
    {
        self.modulo
    }

    /// Sets the modulo.
    pub fn write_modulo(&mut self, value: Byte)
        ensures
            *final(self) == (Timer { modulo: value, ..*old(self) }),
    {
        self.modulo = value;
    }

    /// Reads the control register.
    pub fn read_control(&self) -> (out: Byte)
        ensures
            out == self.control(),
    {
        let mut out = Byte(0);
        match self.clock_speed {
            ClockSpeed::C1024 => {},
            ClockSpeed::C16 => out.write_bit(0, true),
            ClockSpeed::C64 => out.write_bit(1, true),
            ClockSpeed::C256 => {
                out.write_bit(0, true);
                out.write_bit(1, true);
            },
        }
        assert(out.0 == self.clock_speed.code());
        out.write_bit(2, self.enabled);
        out
    }

    /// Writes the control register: bit 2 enables the counter, bits 1 and 0
    /// choose its rate.
    pub fn write_control(&mut self, value: Byte)
        ensures
            *final(self) == old(self).with_control(value),
            final(self).wf(),
    {
        self.enabled = value.is_bit_set(2);
        let code: u8 = value.0 % 4;
        self.clock_speed = if code == 0 {
            ClockSpeed::C1024
        } else if code == 1 {
            ClockSpeed::C16
        } else if code == 2 {
            ClockSpeed::C64
        } else {
            ClockSpeed::C256
        };
        self.elapsed = 0;
    }
}

impl Default for Timer {
    fn default() -> (out: Timer)
        ensures
            out == Timer::idle(),
    {
        Timer::new()
    }
}

/// The state `n` ticks later.
pub open spec fn ticked_times(t: Timer, n: nat) -> Timer
    decreases n,
{
    if n == 0 {
        t
    } else {
        ticked_times(t.ticked(), (n - 1) as nat)
    }
}

/// While enabled, a full period of ticks from the start of a period moves
/// the counter exactly once: up by one, or to the modulo from 255.
pub proof fn lemma_period_moves_counter(t: Timer, n: nat)
    requires
        t.wf(),
        t.enabled,
        n <= t.clock_speed.period() - t.elapsed,
    ensures
        n < t.clock_speed.period() - t.elapsed ==> ticked_times(t, n) == (Timer {
            divider: Byte(((t.divider.0 + n) % 256) as u8),
            elapsed: (t.elapsed + n) as u16,
            ..t
        }),
        n == t.clock_speed.period() - t.elapsed ==> ticked_times(t, n) == (Timer {
            divider: Byte(((t.divider.0 + n) % 256) as u8),
            elapsed: 0,
            counter: if t.counter.0 == 255 {
                t.modulo
            } else {
                Byte((t.counter.0 + 1) as u8)
            },
            ..t
        }),
    decreases n,
{
    if n > 0 {
        if t.elapsed + 1 < t.clock_speed.period() {
            lemma_period_moves_counter(t.ticked(), (n - 1) as nat);
        } else {
            assert(n == 1);
            assert(ticked_times(t.ticked(), 0) == t.ticked());
        }
    }
}

} // verus!
