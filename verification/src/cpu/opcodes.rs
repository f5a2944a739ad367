use vstd::prelude::*;
use crate::cpu::registers::Register;
use crate::cpu::CentralProcessor;
use crate::types::address::Address;
use crate::types::byte::Byte;
use crate::types::signed_byte::SignedByte;

verus! {

/// An eight-bit location: a register, or the byte that HL points at.
#[derive(Clone, Copy, Debug, PartialEq, Eq, Structural)]
pub enum Operand {
    Reg(Register),
    HlIndirect,
}

/// A sixteen-bit register as the load and arithmetic instructions name it.
#[derive(Clone, Copy, Debug, PartialEq, Eq, Structural)]
pub enum Pair {
    BC,
    DE,
    HL,
    SP,
}

/// A sixteen-bit register as the stack instructions name it.
#[derive(Clone, Copy, Debug, PartialEq, Eq, Structural)]
pub enum StackPair {
    BC,
    DE,
    HL,
    AF,
}

/// A pointer for the accumulator loads: BC, DE, or HL stepping on or back
/// after the access.
#[derive(Clone, Copy, Debug, PartialEq, Eq, Structural)]
pub enum Indirect {
    BC,
    DE,
    HlIncrement,
    HlDecrement,
}

/// The flag tests of the conditional instructions.
#[derive(Clone, Copy, Debug, PartialEq, Eq, Structural)]
pub enum Condition {
    NZ,
    Z,
    NC,
    C,
}

/// The eight accumulator operations.
#[derive(Clone, Copy, Debug, PartialEq, Eq, Structural)]
pub enum Alu {
    Add,
    Adc,
    Sub,
    Sbc,
    And,
    Xor,
    Or,
    Cp,
}

/// The eight rotates and shifts of the extended table.
#[derive(Clone, Copy, Debug, PartialEq, Eq, Structural)]
pub enum Shift {
    Rlc,
    Rrc,
    Rl,
    Rr,
    Sla,
    Sra,
    Swap,
    Srl,
}

/// A decoded instruction with its immediate operands.
#[derive(Clone, Copy, Debug, PartialEq, Eq, Structural)]
pub enum Opcode {
    Nop,
    Stop(Byte),
    Halt,
    Daa,
    Cpl,
    Scf,
    Ccf,
    Di,
    Ei,
    Rlca,
    Rrca,
    Rla,
    Rra,
    /// `LD x, y` between registers and `(HL)`.
    Load(Operand, Operand),
    /// `LD x, d8`.
    LoadImmediate(Operand, Byte),
    /// `LD rr, d16`.
    LoadPair(Pair, Address),
    /// `LD (rr), A`.
    StoreA(Indirect),
    /// `LD A, (rr)`.
    LoadA(Indirect),
    /// `LD (0xFF00 + a8), A`.
    StoreAHigh(Byte),
    /// `LD A, (0xFF00 + a8)`.
    LoadAHigh(Byte),
    /// `LD (0xFF00 + C), A`.
    StoreAHighC,
    /// `LD A, (0xFF00 + C)`.
    LoadAHighC,
    /// `LD (a16), A`.
    StoreAAbsolute(Address),
    /// `LD A, (a16)`.
    LoadAAbsolute(Address),
    /// `LD (a16), SP`.
    StoreSp(Address),
    /// `LD SP, HL`.
    LoadSpHl,
    /// `LD HL, SP + s8`.
    LoadHlSpOffset(SignedByte),
    Arith(Alu, Operand),
    ArithImmediate(Alu, Byte),
    Inc(Operand),
    Dec(Operand),
    IncPair(Pair),
    DecPair(Pair),
    /// `ADD HL, rr`.
    AddHl(Pair),
    /// `ADD SP, s8`.
    AddSp(SignedByte),
    Jump(Address),
    JumpIf(Condition, Address),
    JumpHl,
    JumpRelative(SignedByte),
    JumpRelativeIf(Condition, SignedByte),
    Call(Address),
    CallIf(Condition, Address),
    Return,
    ReturnIf(Condition),
    /// `RETI`.
    ReturnInterrupt,
    /// `RST n`, for the vector at eight times `n`.
    Restart(u8),
    Push(StackPair),
    Pop(StackPair),
    Rotate(Shift, Operand),
    TestBit(u8, Operand),
    ResetBit(u8, Operand),
    SetBit(u8, Operand),
}

impl Operand {
    /// Whether the operand lives in memory.
    pub open spec fn in_memory(self) -> bool {
        self == Operand::HlIndirect
    }

    /// Whether the operand lives in memory.
    pub fn is_indirect(self) -> (out: bool)
        ensures
            out == self.in_memory(),
    {
        match self {
            Operand::HlIndirect => true,
            Operand::Reg(_) => false,
        }
    }
}

impl CentralProcessor {
    /// Whether the flags satisfy `cond`.
    pub open spec fn holds(self, cond: Condition) -> bool {
        match cond {
            Condition::NZ => !self.z_flag,
            Condition::Z => self.z_flag,
            Condition::NC => !self.c_flag,
            Condition::C => self.c_flag,
        }
    }

    /// Tests the flags against `cond`.
    pub fn check(&self, cond: Condition) -> (out: bool)
        ensures
            out == self.holds(cond),
    {
        match cond {
            Condition::NZ => !self.z_flag,
            Condition::Z => self.z_flag,
            Condition::NC => !self.c_flag,
            Condition::C => self.c_flag,
        }
    }

    /// Whether `op`, if conditional, finds its condition met.
    pub open spec fn takes(self, op: Opcode) -> bool {
        match op {
            Opcode::JumpIf(cond, _) => self.holds(cond),
            Opcode::JumpRelativeIf(cond, _) => self.holds(cond),
            Opcode::CallIf(cond, _) => self.holds(cond),
            Opcode::ReturnIf(cond) => self.holds(cond),
            _ => true,
        }
    }
}

impl Opcode {
    /// Whether the fields are within what the instruction encodes: bit
    /// numbers and restart vectors below eight.
    pub open spec fn wf(self) -> bool {
        match self {
            Opcode::Restart(n) => n < 8,
            Opcode::TestBit(n, _) => n < 8,
            Opcode::ResetBit(n, _) => n < 8,
            Opcode::SetBit(n, _) => n < 8,
            _ => true,
        }
    }

    /// Tests whether the fields are within what the instruction encodes.
    pub fn is_valid(self) -> (out: bool)
        ensures
            out == self.wf(),
    {
        match self {
            Opcode::Restart(n) => n < 8,
            Opcode::TestBit(n, _) => n < 8,
            Opcode::ResetBit(n, _) => n < 8,
            Opcode::SetBit(n, _) => n < 8,
            _ => true,
        }
    }

    /// The machine cycles that the instruction takes; `taken` tells
    /// whether a conditional instruction found its condition met.
    pub open spec fn cycles(self, taken: bool) -> int {
        match self {
            Opcode::Nop | Opcode::Stop(_) | Opcode::Halt | Opcode::Daa | Opcode::Cpl | Opcode::Scf
            | Opcode::Ccf | Opcode::Di | Opcode::Ei | Opcode::Rlca | Opcode::Rrca | Opcode::Rla
            | Opcode::Rra | Opcode::JumpHl => 1,
            Opcode::Load(dst, src) => if dst.in_memory() || src.in_memory() {
                2
            } else {
                1
            },
            Opcode::LoadImmediate(dst, _) => if dst.in_memory() {
                3
            } else {
                2
            },
            Opcode::LoadPair(_, _) => 3,
            Opcode::StoreA(_) | Opcode::LoadA(_) | Opcode::StoreAHighC | Opcode::LoadAHighC => 2,
            Opcode::StoreAHigh(_) | Opcode::LoadAHigh(_) => 3,
            Opcode::StoreAAbsolute(_) | Opcode::LoadAAbsolute(_) => 4,
            Opcode::StoreSp(_) => 5,
            Opcode::LoadSpHl => 2,
            Opcode::LoadHlSpOffset(_) => 3,
            Opcode::Arith(_, src) => if src.in_memory() {
                2
            } else {
                1
            },
            Opcode::ArithImmediate(_, _) => 2,
            Opcode::Inc(x) | Opcode::Dec(x) => if x.in_memory() {
                3
            } else {
                1
            },
            Opcode::IncPair(_) | Opcode::DecPair(_) | Opcode::AddHl(_) => 2,
            Opcode::AddSp(_) => 4,
            Opcode::Jump(_) => 4,
            Opcode::JumpIf(_, _) => if taken {
                4
            } else {
                3
            },
            Opcode::JumpRelative(_) => 3,
            Opcode::JumpRelativeIf(_, _) => if taken {
                3
            } else {
                2
            },
            Opcode::Call(_) => 6,
            Opcode::CallIf(_, _) => if taken {
                6
            } else {
                3
            },
            Opcode::Return | Opcode::ReturnInterrupt => 4,
            Opcode::ReturnIf(_) => if taken {
                5
            } else {
                2
            },
            Opcode::Restart(_) | Opcode::Push(_) => 4,
            Opcode::Pop(_) => 3,
            Opcode::Rotate(_, x) | Opcode::ResetBit(_, x) | Opcode::SetBit(_, x) => if x.in_memory() {
                4
            } else {
                2
            },
            Opcode::TestBit(_, x) => if x.in_memory() {
                3
            } else {
                2
            },
        }
    }

    /// Looks up the machine cycles that the instruction takes.
    pub fn cost(self, taken: bool) -> (out: u8)
        ensures
            out == self.cycles(taken),
            1 <= out <= 6,
    {
        match self {
            Opcode::Nop | Opcode::Stop(_) | Opcode::Halt | Opcode::Daa | Opcode::Cpl | Opcode::Scf
            | Opcode::Ccf | Opcode::Di | Opcode::Ei | Opcode::Rlca | Opcode::Rrca | Opcode::Rla
            | Opcode::Rra | Opcode::JumpHl => 1,
            Opcode::Load(dst, src) => if dst.is_indirect() || src.is_indirect() {
                2
            } else {
                1
            },
            Opcode::LoadImmediate(dst, _) => if dst.is_indirect() {
                3
            } else {
                2
            },
            Opcode::LoadPair(_, _) => 3,
            Opcode::StoreA(_) | Opcode::LoadA(_) | Opcode::StoreAHighC | Opcode::LoadAHighC => 2,
            Opcode::StoreAHigh(_) | Opcode::LoadAHigh(_) => 3,
            Opcode::StoreAAbsolute(_) | Opcode::LoadAAbsolute(_) => 4,
            Opcode::StoreSp(_) => 5,
            Opcode::LoadSpHl => 2,
            Opcode::LoadHlSpOffset(_) => 3,
            Opcode::Arith(_, src) => if src.is_indirect() {
                2
            } else {
                1
            },
            Opcode::ArithImmediate(_, _) => 2,
            Opcode::Inc(x) | Opcode::Dec(x) => if x.is_indirect() {
                3
            } else {
                1
            },
            Opcode::IncPair(_) | Opcode::DecPair(_) | Opcode::AddHl(_) => 2,
            Opcode::AddSp(_) => 4,
            Opcode::Jump(_) => 4,
            Opcode::JumpIf(_, _) => if taken {
                4
            } else {
                3
            },
            Opcode::JumpRelative(_) => 3,
            Opcode::JumpRelativeIf(_, _) => if taken {
                3
            } else {
                2
            },
            Opcode::Call(_) => 6,
            Opcode::CallIf(_, _) => if taken {
                6
            } else {
                3
            },
            Opcode::Return | Opcode::ReturnInterrupt => 4,
            Opcode::ReturnIf(_) => if taken {
                5
            } else {
                2
            },
            Opcode::Restart(_) | Opcode::Push(_) => 4,
            Opcode::Pop(_) => 3,
            Opcode::Rotate(_, x) | Opcode::ResetBit(_, x) | Opcode::SetBit(_, x) => if x.is_indirect() {
                4
            } else {
                2
            },
            Opcode::TestBit(_, x) => if x.is_indirect() {
                3
            } else {
                2
            },
        }
    }
}

} // verus!
