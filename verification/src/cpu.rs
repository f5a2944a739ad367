//! The processor: register file, flags, and the fetch-execute cycle.
use vstd::prelude::*;
use crate::types::address::Address;
use crate::types::byte::Byte;

pub mod arith;
pub mod cycle;
pub mod execute;
pub mod fetch;
pub mod machine;
pub mod opcodes;
pub mod registers;
pub mod semantics;
pub mod stack;
pub mod timing;

verus! {

/// The processor's architectural state.
///
/// The four flags are kept apart; together they form the upper nibble of the
/// virtual register F. `cost` counts the machine cycles still owed by the
/// instruction that was executed last; the processor fetches only when it is
/// zero.
#[derive(Clone, Copy, Debug, PartialEq, Eq, Structural)]
pub struct CentralProcessor {
    pub a: Byte,
    pub b: Byte,
    pub c: Byte,
    pub d: Byte,
    pub e: Byte,
    pub h: Byte,
    pub l: Byte,
    pub z_flag: bool,
    pub n_flag: bool,
    pub h_flag: bool,
    pub c_flag: bool,
    pub pc: Address,
    pub sp: Address,
    pub interupt_master_enable: bool,
    pub cost: u8,
}

/// One when the condition holds, zero otherwise.
pub open spec fn bit_value(b: bool) -> int {
    if b {
        1
    } else {
        0
    }
}

impl CentralProcessor {
    /// The state after reset.
    pub open spec fn reset() -> CentralProcessor {
        CentralProcessor {
            a: Byte(0),
            b: Byte(0),
            c: Byte(0),
            d: Byte(0),
            e: Byte(0),
            h: Byte(0),
            l: Byte(0),
            z_flag: false,
            n_flag: false,
            h_flag: false,
            c_flag: false,
            pc: Address(0x0100),
            sp: Address(0xFFFE),
            interupt_master_enable: false,
            cost: 0,
        }
    }

    /// The virtual register F: Z, N, H and C in bits 7 to 4, the rest zero.
    pub open spec fn f(self) -> Byte {
        Byte(
            (128 * bit_value(self.z_flag) + 64 * bit_value(self.n_flag) + 32 * bit_value(
                self.h_flag,
            ) + 16 * bit_value(self.c_flag)) as u8,
        )
    }

    /// The pair BC.
    pub open spec fn bc(self) -> Address {
        Address::join(self.b, self.c)
    }

    /// The pair DE.
    pub open spec fn de(self) -> Address {
        Address::join(self.d, self.e)
    }

    /// The pair HL.
    pub open spec fn hl(self) -> Address {
        Address::join(self.h, self.l)
    }

    /// The pair AF.
    pub open spec fn af(self) -> Address {
        Address::join(self.a, self.f())
    }

    /// The state with the four flags replaced.
    pub open spec fn with_flags(self, z: bool, n: bool, h: bool, c: bool) -> CentralProcessor {
        CentralProcessor { z_flag: z, n_flag: n, h_flag: h, c_flag: c, ..self }
    }

    /// The state with the flags taken from bits 7 to 4 of `val`.
    pub open spec fn with_f(self, val: Byte) -> CentralProcessor {
        self.with_flags(val.bit(7), val.bit(6), val.bit(5), val.bit(4))
    }

    /// The state with BC replaced.
    pub open spec fn with_bc(self, addr: Address) -> CentralProcessor {
        CentralProcessor { b: addr.high(), c: addr.low(), ..self }
    }

    /// The state with DE replaced.
    pub open spec fn with_de(self, addr: Address) -> CentralProcessor {
        CentralProcessor { d: addr.high(), e: addr.low(), ..self }
    }

    /// The state with HL replaced.
    pub open spec fn with_hl(self, addr: Address) -> CentralProcessor {
        CentralProcessor { h: addr.high(), l: addr.low(), ..self }
    }

    /// The state with A and the flags replaced by the halves of `addr`.
    pub open spec fn with_af(self, addr: Address) -> CentralProcessor {
        CentralProcessor { a: addr.high(), ..self }.with_f(addr.low())
    }

    /// A processor in its reset state: PC at `0x0100`, SP at `0xFFFE`,
    /// everything else cleared.
    pub fn new() -> (out: CentralProcessor)
        ensures
            out == CentralProcessor::reset(),
    {
        CentralProcessor {
            a: Byte(0),
            b: Byte(0),
            c: Byte(0),
            d: Byte(0),
            e: Byte(0),
            h: Byte(0),
            l: Byte(0),
            z_flag: false,
            n_flag: false,
            h_flag: false,
            c_flag: false,
            pc: Address(0x0100),
            sp: Address(0xFFFE),
            interupt_master_enable: false,
            cost: 0,
        }
    }

    /// Packs the flags into the virtual register F.
    pub fn read_f(&self) -> (out: Byte)
        ensures
            out == self.f(),
    {
        let mut b = Byte(0);
        b.write_bit(4, self.c_flag);
        assert(b.0 == 16 * bit_value(self.c_flag));
        b.write_bit(5, self.h_flag);
        assert(b.0 == 32 * bit_value(self.h_flag) + 16 * bit_value(self.c_flag));
        b.write_bit(6, self.n_flag);
        assert(b.0 == 64 * bit_value(self.n_flag) + 32 * bit_value(self.h_flag) + 16 * bit_value(
            self.c_flag,
        ));
        b.write_bit(7, self.z_flag);
        b
    }

    /// Reads the pair BC.
    pub fn read_bc(&self) -> (out: Address)
        ensures
            out == self.bc(),
    {
        Address::from_pair(self.b, self.c)
    }

    /// Reads the pair DE.
    pub fn read_de(&self) -> (out: Address)
        ensures
            out == self.de(),
    {
        Address::from_pair(self.d, self.e)
    }

    /// Reads the pair HL.
    pub fn read_hl(&self) -> (out: Address)
        ensures
            out == self.hl(),
    {
        Address::from_pair(self.h, self.l)
    }

    /// Reads the pair AF.
    pub fn read_af(&self) -> (out: Address)
        ensures
            out == self.af(),
    {
        Address::from_pair(self.a, self.read_f())
    }

    /// Unpacks the flags from bits 7 to 4 of `val`; the low nibble is dropped.
    pub fn write_f(&mut self, val: Byte)
        ensures
            *final(self) == old(self).with_f(val),
    {
        self.z_flag = val.is_bit_set(7);
        self.n_flag = val.is_bit_set(6);
        self.h_flag = val.is_bit_set(5);
        self.c_flag = val.is_bit_set(4);
    }

    /// Writes the pair BC.
    pub fn write_bc(&mut self, addr: Address)
        ensures
            *final(self) == old(self).with_bc(addr),
    {
        let (b, c) = addr.split();
        self.b = b;
        self.c = c;
    }

    /// Writes the pair DE.
    pub fn write_de(&mut self, addr: Address)
        ensures
            *final(self) == old(self).with_de(addr),
    {
        let (d, e) = addr.split();
        self.d = d;
        self.e = e;
    }

    /// Writes the pair HL.
    pub fn write_hl(&mut self, addr: Address)
        ensures
            *final(self) == old(self).with_hl(addr),
    {
        let (h, l) = addr.split();
        self.h = h;
        self.l = l;
    }

    /// Writes the pair AF; the low nibble of F does not exist and is dropped.
    pub fn write_af(&mut self, addr: Address)
        ensures
            *final(self) == old(self).with_af(addr),
    {
        let (a, f) = addr.split();
        self.a = a;
        self.write_f(f);
    }
}

impl Default for CentralProcessor {
    fn default() -> (out: CentralProcessor)
        ensures
            out == CentralProcessor::reset(),
    {
        CentralProcessor::new()
    }
}

/// Reading F back after writing it keeps the upper nibble and clears the
/// lower one.
pub proof fn lemma_flags_round_trip(cpu: CentralProcessor, val: Byte)
    ensures
        cpu.with_f(val).f().0 == val.0 - val.0 % 16,
        cpu.with_f(cpu.f()) == cpu,
{
    let v = val.0;
    assert(v / 16 == 2 * (v / 32) + (v / 16) % 2);
    assert(v / 32 == 2 * (v / 64) + (v / 32) % 2);
    assert(v / 64 == 2 * (v / 128) + (v / 64) % 2);
    assert(v / 128 == (v / 128) % 2);
    let f = cpu.f().0;
    let (z, n, h, c) = (
        bit_value(cpu.z_flag),
        bit_value(cpu.n_flag),
        bit_value(cpu.h_flag),
        bit_value(cpu.c_flag),
    );
    assert(f / 128 == z);
    assert(f / 64 == 2 * z + n);
    assert(f / 32 == 4 * z + 2 * n + h);
    assert(f / 16 == 8 * z + 4 * n + 2 * h + c);
}

} // verus!
