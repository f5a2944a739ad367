use vstd::prelude::*;
use crate::cpu::CentralProcessor;
use crate::types::byte::Byte;

verus! {

/// The seven eight-bit general registers.
#[derive(Clone, Copy, Debug, PartialEq, Eq, Structural)]
pub enum Register {
    A,
    B,
    C,
    D,
    E,
    H,
    L,
}

impl CentralProcessor {
    /// The value held by `reg`.
    pub open spec fn register(self, reg: Register) -> Byte {
        match reg {
            Register::A => self.a,
            Register::B => self.b,
            Register::C => self.c,
            Register::D => self.d,
            Register::E => self.e,
            Register::H => self.h,
            Register::L => self.l,
        }
    }

    /// The state with `reg` replaced by `val`.
    pub open spec fn with_register(self, reg: Register, val: Byte) -> CentralProcessor {
        match reg {
            Register::A => CentralProcessor { a: val, ..self },
            Register::B => CentralProcessor { b: val, ..self },
            Register::C => CentralProcessor { c: val, ..self },
            Register::D => CentralProcessor { d: val, ..self },
            Register::E => CentralProcessor { e: val, ..self },
            Register::H => CentralProcessor { h: val, ..self },
            Register::L => CentralProcessor { l: val, ..self },
        }
    }

    /// Reads one general register.
    pub fn read_register(&self, reg: Register) -> (out: Byte)
        ensures
            out == self.register(reg),
    {
        match reg {
            Register::A => self.a,
            Register::B => self.b,
            Register::C => self.c,
            Register::D => self.d,
            Register::E => self.e,
            Register::H => self.h,
            Register::L => self.l,
        }
    }

    /// Writes one general register.
    pub fn write_register(&mut self, reg: Register, val: Byte)
        ensures
            *final(self) == old(self).with_register(reg, val),
    {
        match reg {
            Register::A => self.a = val,
            Register::B => self.b = val,
            Register::C => self.c = val,
            Register::D => self.d = val,
            Register::E => self.e = val,
            Register::H => self.h = val,
            Register::L => self.l = val,
        }
    }
}

/// A register holds what was last written to it, and a write leaves the
/// other registers alone.
pub proof fn lemma_register_write_read(cpu: CentralProcessor, r: Register, q: Register, val: Byte)
    ensures
        cpu.with_register(r, val).register(r) == val,
        q != r ==> cpu.with_register(r, val).register(q) == cpu.register(q),
{
}

} // verus!
