//! Instruction fetch and decoding.
use vstd::prelude::*;
use crate::cpu::machine::reached;
use crate::cpu::machine::Machine;
use crate::cpu::opcodes::Alu;
use crate::cpu::opcodes::Condition;
use crate::cpu::opcodes::Indirect;
use crate::cpu::opcodes::Opcode;
use crate::cpu::opcodes::Operand;
use crate::cpu::opcodes::Pair;
use crate::cpu::opcodes::Shift;
use crate::cpu::opcodes::StackPair;
use crate::cpu::registers::Register;
use crate::cpu::CentralProcessor;
use crate::fault::Fault;
use crate::memory::MemoryMap;
use crate::types::address::Address;
use crate::types::byte::Byte;
use crate::types::signed_byte::SignedByte;

verus! {

/// The eight-bit operand that a three-bit field names.
pub open spec fn operand_of(code: u8) -> Operand {
    if code == 0 {
        Operand::Reg(Register::B)
    } else if code == 1 {
        Operand::Reg(Register::C)
    } else if code == 2 {
        Operand::Reg(Register::D)
    } else if code == 3 {
        Operand::Reg(Register::E)
    } else if code == 4 {
        Operand::Reg(Register::H)
    } else if code == 5 {
        Operand::Reg(Register::L)
    } else if code == 6 {
        Operand::HlIndirect
    } else {
        Operand::Reg(Register::A)
    }
}

/// The sixteen-bit register that a two-bit field names.
pub open spec fn pair_of(code: u8) -> Pair {
    if code == 0 {
        Pair::BC
    } else if code == 1 {
        Pair::DE
    } else if code == 2 {
        Pair::HL
    } else {
        Pair::SP
    }
}

/// The register that a two-bit field names in a stack instruction.
pub open spec fn stack_pair_of(code: u8) -> StackPair {
    if code == 0 {
        StackPair::BC
    } else if code == 1 {
        StackPair::DE
    } else if code == 2 {
        StackPair::HL
    } else {
        StackPair::AF
    }
}

/// The pointer that a two-bit field names in an accumulator load.
pub open spec fn indirect_of(code: u8) -> Indirect {
    if code == 0 {
        Indirect::BC
    } else if code == 1 {
        Indirect::DE
    } else if code == 2 {
        Indirect::HlIncrement
    } else {
        Indirect::HlDecrement
    }
}

/// The flag test that a two-bit field names.
pub open spec fn condition_of(code: u8) -> Condition {
    if code == 0 {
        Condition::NZ
    } else if code == 1 {
        Condition::Z
    } else if code == 2 {
        Condition::NC
    } else {
        Condition::C
    }
}

/// The accumulator operation that a three-bit field names.
pub open spec fn alu_of(code: u8) -> Alu {
    if code == 0 {
        Alu::Add
    } else if code == 1 {
        Alu::Adc
    } else if code == 2 {
        Alu::Sub
    } else if code == 3 {
        Alu::Sbc
    } else if code == 4 {
        Alu::And
    } else if code == 5 {
        Alu::Xor
    } else if code == 6 {
        Alu::Or
    } else {
        Alu::Cp
    }
}

/// The rotate or shift that a three-bit field names.
pub open spec fn shift_of(code: u8) -> Shift {
    if code == 0 {
        Shift::Rlc
    } else if code == 1 {
        Shift::Rrc
    } else if code == 2 {
        Shift::Rl
    } else if code == 3 {
        Shift::Rr
    } else if code == 4 {
        Shift::Sla
    } else if code == 5 {
        Shift::Sra
    } else if code == 6 {
        Shift::Swap
    } else {
        Shift::Srl
    }
}

/// The number of immediate bytes that follow an opcode of the primary
/// table. The opcode is read by its fields: the column `z` in its low three
/// bits and the row `y` in the three above them.
pub open spec fn operand_length(b0: Byte) -> int {
    let y = (b0.0 / 8) % 8;
    let z = b0.0 % 8;
    if b0.0 < 0x40 {
        if z == 0 {
            if y == 0 {
                0
            } else if y == 1 {
                2
            } else {
                1
            }
        } else if z == 1 {
            if y % 2 == 0 {
                2
            } else {
                0
            }
        } else if z == 6 {
            1
        } else {
            0
        }
    } else if b0.0 < 0xC0 {
        0
    } else if z == 0 {
        if y >= 4 {
            1
        } else {
            0
        }
    } else if z == 2 {
        if y <= 3 || y == 5 || y == 7 {
            2
        } else {
            0
        }
    } else if z == 3 {
        if y == 0 {
            2
        } else if y == 1 {
            1
        } else {
            0
        }
    } else if z == 4 {
        if y <= 3 {
            2
        } else {
            0
        }
    } else if z == 5 {
        if y == 1 {
            2
        } else {
            0
        }
    } else if z == 6 {
        1
    } else {
        0
    }
}

/// The instruction that a byte below `0x40` encodes.
pub open spec fn decoded_low(b0: Byte, imm8: Byte, imm16: Address) -> Opcode {
    let y = (b0.0 / 8) % 8;
    let z = b0.0 % 8;
    let offset = SignedByte(imm8.signed() as i8);
    if z == 0 {
        if y == 0 {
            Opcode::Nop
        } else if y == 1 {
            Opcode::StoreSp(imm16)
        } else if y == 2 {
            Opcode::Stop(imm8)
        } else if y == 3 {
            Opcode::JumpRelative(offset)
        } else {
            Opcode::JumpRelativeIf(condition_of((y - 4) as u8), offset)
        }
    } else if z == 1 {
        if y % 2 == 0 {
            Opcode::LoadPair(pair_of(y / 2), imm16)
        } else {
            Opcode::AddHl(pair_of(y / 2))
        }
    } else if z == 2 {
        if y % 2 == 0 {
            Opcode::StoreA(indirect_of(y / 2))
        } else {
            Opcode::LoadA(indirect_of(y / 2))
        }
    } else if z == 3 {
        if y % 2 == 0 {
            Opcode::IncPair(pair_of(y / 2))
        } else {
            Opcode::DecPair(pair_of(y / 2))
        }
    } else if z == 4 {
        Opcode::Inc(operand_of(y))
    } else if z == 5 {
        Opcode::Dec(operand_of(y))
    } else if z == 6 {
        Opcode::LoadImmediate(operand_of(y), imm8)
    } else if y == 0 {
        Opcode::Rlca
    } else if y == 1 {
        Opcode::Rrca
    } else if y == 2 {
        Opcode::Rla
    } else if y == 3 {
        Opcode::Rra
    } else if y == 4 {
        Opcode::Daa
    } else if y == 5 {
        Opcode::Cpl
    } else if y == 6 {
        Opcode::Scf
    } else {
        Opcode::Ccf
    }
}

/// The instruction that a byte from `0xC0` on encodes, or the decode fault
/// for the eleven bytes that encode none. The extension prefix `0xCB` is
/// not covered here.
pub open spec fn decoded_high(b0: Byte, imm8: Byte, imm16: Address) -> Result<Opcode, Fault> {
    let y = (b0.0 / 8) % 8;
    let z = b0.0 % 8;
    let offset = SignedByte(imm8.signed() as i8);
    if z == 0 {
        if y <= 3 {
            Ok(Opcode::ReturnIf(condition_of(y)))
        } else if y == 4 {
            Ok(Opcode::StoreAHigh(imm8))
        } else if y == 5 {
            Ok(Opcode::AddSp(offset))
        } else if y == 6 {
            Ok(Opcode::LoadAHigh(imm8))
        } else {
            Ok(Opcode::LoadHlSpOffset(offset))
        }
    } else if z == 1 {
        if y % 2 == 0 {
            Ok(Opcode::Pop(stack_pair_of(y / 2)))
        } else if y == 1 {
            Ok(Opcode::Return)
        } else if y == 3 {
            Ok(Opcode::ReturnInterrupt)
        } else if y == 5 {
            Ok(Opcode::JumpHl)
        } else {
            Ok(Opcode::LoadSpHl)
        }
    } else if z == 2 {
        if y <= 3 {
            Ok(Opcode::JumpIf(condition_of(y), imm16))
        } else if y == 4 {
            Ok(Opcode::StoreAHighC)
        } else if y == 5 {
            Ok(Opcode::StoreAAbsolute(imm16))
        } else if y == 6 {
            Ok(Opcode::LoadAHighC)
        } else {
            Ok(Opcode::LoadAAbsolute(imm16))
        }
    } else if z == 3 {
        if y == 0 {
            Ok(Opcode::Jump(imm16))
        } else if y == 6 {
            Ok(Opcode::Di)
        } else if y == 7 {
            Ok(Opcode::Ei)
        } else {
            Err(Fault::IllegalOpcode(b0))
        }
    } else if z == 4 {
        if y <= 3 {
            Ok(Opcode::CallIf(condition_of(y), imm16))
        } else {
            Err(Fault::IllegalOpcode(b0))
        }
    } else if z == 5 {
        if y % 2 == 0 {
            Ok(Opcode::Push(stack_pair_of(y / 2)))
        } else if y == 1 {
            Ok(Opcode::Call(imm16))
        } else {
            Err(Fault::IllegalOpcode(b0))
        }
    } else if z == 6 {
        Ok(Opcode::ArithImmediate(alu_of(y), imm8))
    } else {
        Ok(Opcode::Restart(y))
    }
}

/// The instruction that a byte of the primary table encodes, given the
/// immediate bytes that follow it.
pub open spec fn decoded(b0: Byte, imm8: Byte, imm16: Address) -> Result<Opcode, Fault> {
    if b0.0 < 0x40 {
        Ok(decoded_low(b0, imm8, imm16))
    } else if b0.0 == 0x76 {
        Ok(Opcode::Halt)
    } else if b0.0 < 0x80 {
        Ok(Opcode::Load(operand_of((b0.0 / 8) % 8), operand_of(b0.0 % 8)))
    } else if b0.0 < 0xC0 {
        Ok(Opcode::Arith(alu_of((b0.0 / 8) % 8), operand_of(b0.0 % 8)))
    } else {
        decoded_high(b0, imm8, imm16)
    }
}

/// The instruction that a byte after the extension prefix encodes.
pub open spec fn decoded_extended(b: Byte) -> Opcode {
    let y = (b.0 / 8) % 8;
    let x = operand_of(b.0 % 8);
    if b.0 < 0x40 {
        Opcode::Rotate(shift_of(y), x)
    } else if b.0 < 0x80 {
        Opcode::TestBit(y, x)
    } else if b.0 < 0xC0 {
        Opcode::ResetBit(y, x)
    } else {
        Opcode::SetBit(y, x)
    }
}

impl Machine {
    /// The outcome of fetching an instruction of the extended table: one
    /// more byte is taken and decoded.
    pub open spec fn fetched_extended(self) -> (Machine, Result<Opcode, Fault>) {
        match self.consumed_byte() {
            (next, Ok(b)) => (next, Ok(decoded_extended(b))),
            (next, Err(fault)) => (next, Err(fault)),
        }
    }

    /// The outcome of taking the immediate bytes of an opcode of the
    /// primary table and decoding it.
    pub open spec fn fetched_operands(self, b0: Byte) -> (Machine, Result<Opcode, Fault>) {
        if operand_length(b0) == 0 {
            (self, decoded(b0, Byte(0), Address(0)))
        } else if operand_length(b0) == 1 {
            match self.consumed_byte() {
                (next, Ok(imm8)) => (next, decoded(b0, imm8, Address(0))),
                (next, Err(fault)) => (next, Err(fault)),
            }
        } else {
            match self.consumed_pair() {
                (next, Ok(imm16)) => (next, decoded(b0, Byte(0), imm16)),
                (next, Err(fault)) => (next, Err(fault)),
            }
        }
    }

    /// The outcome of fetching the instruction at the program counter: the
    /// opcode and its immediate bytes are taken from the bus, the counter
    /// moving past each byte that was read, and decoded.
    pub open spec fn fetched(self) -> (Machine, Result<Opcode, Fault>) {
        match self.consumed_byte() {
            (next, Ok(b0)) => if b0.0 == 0xCB {
                next.fetched_extended()
            } else {
                next.fetched_operands(b0)
            },
            (next, Err(fault)) => (next, Err(fault)),
        }
    }
}

/// Looks up the eight-bit operand that a three-bit field names.
pub fn operand_from_code(code: u8) -> (out: Operand)
    requires
        code < 8,
    ensures
        out == operand_of(code),
{
    match code {
        0 => Operand::Reg(Register::B),
        1 => Operand::Reg(Register::C),
        2 => Operand::Reg(Register::D),
        3 => Operand::Reg(Register::E),
        4 => Operand::Reg(Register::H),
        5 => Operand::Reg(Register::L),
        6 => Operand::HlIndirect,
        _ => Operand::Reg(Register::A),
    }
}

/// Looks up the accumulator operation that a three-bit field names.
pub fn alu_from_code(code: u8) -> (out: Alu)
    requires
        code < 8,
    ensures
        out == alu_of(code),
{
    match code {
        0 => Alu::Add,
        1 => Alu::Adc,
        2 => Alu::Sub,
        3 => Alu::Sbc,
        4 => Alu::And,
        5 => Alu::Xor,
        6 => Alu::Or,
        _ => Alu::Cp,
    }
}

/// Looks up the rotate or shift that a three-bit field names.
pub fn shift_from_code(code: u8) -> (out: Shift)
    requires
        code < 8,
    ensures
        out == shift_of(code),
{
    match code {
        0 => Shift::Rlc,
        1 => Shift::Rrc,
        2 => Shift::Rl,
        3 => Shift::Rr,
        4 => Shift::Sla,
        5 => Shift::Sra,
        6 => Shift::Swap,
        _ => Shift::Srl,
    }
}

/// Looks up the number of immediate bytes that follow an opcode of the
/// primary table.
pub fn operand_count(b0: Byte) -> (out: u8)
    ensures
        out == operand_length(b0),
{
    match b0.0 {
        0x01 | 0x08 | 0x11 | 0x21 | 0x31 | 0xC2 | 0xC3 | 0xC4 | 0xCA | 0xCC | 0xCD | 0xD2 | 0xD4
        | 0xDA | 0xDC | 0xEA | 0xFA => 2,
        0x06 | 0x0E | 0x10 | 0x16 | 0x18 | 0x1E | 0x20 | 0x26 | 0x28 | 0x2E | 0x30 | 0x36 | 0x38
        | 0x3E | 0xC6 | 0xCB | 0xCE | 0xD6 | 0xDE | 0xE0 | 0xE6 | 0xE8 | 0xEE | 0xF0 | 0xF6 | 0xF8
        | 0xFE => 1,
        _ => 0,
    }
}

/// Decodes a byte below `0x40`.
pub fn decode_low(b0: Byte, imm8: Byte, imm16: Address) -> (out: Result<Opcode, Fault>)
    requires
        b0.0 < 0x40,
    ensures
        out == Ok::<Opcode, Fault>(decoded_low(b0, imm8, imm16)),
{
    match b0.0 {
            0x00 => Ok(Opcode::Nop),
            0x01 => Ok(Opcode::LoadPair(Pair::BC, imm16)),
            0x02 => Ok(Opcode::StoreA(Indirect::BC)),
            0x03 => Ok(Opcode::IncPair(Pair::BC)),
            0x04 => Ok(Opcode::Inc(Operand::Reg(Register::B))),
            0x05 => Ok(Opcode::Dec(Operand::Reg(Register::B))),
            0x06 => Ok(Opcode::LoadImmediate(Operand::Reg(Register::B), imm8)),
            0x07 => Ok(Opcode::Rlca),
            0x08 => Ok(Opcode::StoreSp(imm16)),
            0x09 => Ok(Opcode::AddHl(Pair::BC)),
            0x0A => Ok(Opcode::LoadA(Indirect::BC)),
            0x0B => Ok(Opcode::DecPair(Pair::BC)),
            0x0C => Ok(Opcode::Inc(Operand::Reg(Register::C))),
            0x0D => Ok(Opcode::Dec(Operand::Reg(Register::C))),
            0x0E => Ok(Opcode::LoadImmediate(Operand::Reg(Register::C), imm8)),
            0x0F => Ok(Opcode::Rrca),
            0x10 => Ok(Opcode::Stop(imm8)),
            0x11 => Ok(Opcode::LoadPair(Pair::DE, imm16)),
            0x12 => Ok(Opcode::StoreA(Indirect::DE)),
            0x13 => Ok(Opcode::IncPair(Pair::DE)),
            0x14 => Ok(Opcode::Inc(Operand::Reg(Register::D))),
            0x15 => Ok(Opcode::Dec(Operand::Reg(Register::D))),
            0x16 => Ok(Opcode::LoadImmediate(Operand::Reg(Register::D), imm8)),
            0x17 => Ok(Opcode::Rla),
            0x18 => Ok(Opcode::JumpRelative(imm8.to_signed())),
            0x19 => Ok(Opcode::AddHl(Pair::DE)),
            0x1A => Ok(Opcode::LoadA(Indirect::DE)),
            0x1B => Ok(Opcode::DecPair(Pair::DE)),
            0x1C => Ok(Opcode::Inc(Operand::Reg(Register::E))),
            0x1D => Ok(Opcode::Dec(Operand::Reg(Register::E))),
            0x1E => Ok(Opcode::LoadImmediate(Operand::Reg(Register::E), imm8)),
            0x1F => Ok(Opcode::Rra),
            0x20 => Ok(Opcode::JumpRelativeIf(Condition::NZ, imm8.to_signed())),
            0x21 => Ok(Opcode::LoadPair(Pair::HL, imm16)),
            0x22 => Ok(Opcode::StoreA(Indirect::HlIncrement)),
            0x23 => Ok(Opcode::IncPair(Pair::HL)),
            0x24 => Ok(Opcode::Inc(Operand::Reg(Register::H))),
            0x25 => Ok(Opcode::Dec(Operand::Reg(Register::H))),
            0x26 => Ok(Opcode::LoadImmediate(Operand::Reg(Register::H), imm8)),
            0x27 => Ok(Opcode::Daa),
            0x28 => Ok(Opcode::JumpRelativeIf(Condition::Z, imm8.to_signed())),
            0x29 => Ok(Opcode::AddHl(Pair::HL)),
            0x2A => Ok(Opcode::LoadA(Indirect::HlIncrement)),
            0x2B => Ok(Opcode::DecPair(Pair::HL)),
            0x2C => Ok(Opcode::Inc(Operand::Reg(Register::L))),
            0x2D => Ok(Opcode::Dec(Operand::Reg(Register::L))),
            0x2E => Ok(Opcode::LoadImmediate(Operand::Reg(Register::L), imm8)),
            0x2F => Ok(Opcode::Cpl),
            0x30 => Ok(Opcode::JumpRelativeIf(Condition::NC, imm8.to_signed())),
            0x31 => Ok(Opcode::LoadPair(Pair::SP, imm16)),
            0x32 => Ok(Opcode::StoreA(Indirect::HlDecrement)),
            0x33 => Ok(Opcode::IncPair(Pair::SP)),
            0x34 => Ok(Opcode::Inc(Operand::HlIndirect)),
            0x35 => Ok(Opcode::Dec(Operand::HlIndirect)),
            0x36 => Ok(Opcode::LoadImmediate(Operand::HlIndirect, imm8)),
            0x37 => Ok(Opcode::Scf),
            0x38 => Ok(Opcode::JumpRelativeIf(Condition::C, imm8.to_signed())),
            0x39 => Ok(Opcode::AddHl(Pair::SP)),
            0x3A => Ok(Opcode::LoadA(Indirect::HlDecrement)),
            0x3B => Ok(Opcode::DecPair(Pair::SP)),
            0x3C => Ok(Opcode::Inc(Operand::Reg(Register::A))),
            0x3D => Ok(Opcode::Dec(Operand::Reg(Register::A))),
            0x3E => Ok(Opcode::LoadImmediate(Operand::Reg(Register::A), imm8)),
            0x3F => Ok(Opcode::Ccf),
        _ => Ok(Opcode::Nop),
    }
}

/// Decodes a byte from `0xC0` on, the extension prefix apart.
pub fn decode_high(b0: Byte, imm8: Byte, imm16: Address) -> (out: Result<Opcode, Fault>)
    requires
        b0.0 >= 0xC0,
        b0.0 != 0xCB,
    ensures
        out == decoded_high(b0, imm8, imm16),
{
    match b0.0 {
            0xC0 => Ok(Opcode::ReturnIf(Condition::NZ)),
            0xC1 => Ok(Opcode::Pop(StackPair::BC)),
            0xC2 => Ok(Opcode::JumpIf(Condition::NZ, imm16)),
            0xC3 => Ok(Opcode::Jump(imm16)),
            0xC4 => Ok(Opcode::CallIf(Condition::NZ, imm16)),
            0xC5 => Ok(Opcode::Push(StackPair::BC)),
            0xC6 => Ok(Opcode::ArithImmediate(Alu::Add, imm8)),
            0xC7 => Ok(Opcode::Restart(0)),
            0xC8 => Ok(Opcode::ReturnIf(Condition::Z)),
            0xC9 => Ok(Opcode::Return),
            0xCA => Ok(Opcode::JumpIf(Condition::Z, imm16)),
            0xCC => Ok(Opcode::CallIf(Condition::Z, imm16)),
            0xCD => Ok(Opcode::Call(imm16)),
            0xCE => Ok(Opcode::ArithImmediate(Alu::Adc, imm8)),
            0xCF => Ok(Opcode::Restart(1)),
            0xD0 => Ok(Opcode::ReturnIf(Condition::NC)),
            0xD1 => Ok(Opcode::Pop(StackPair::DE)),
            0xD2 => Ok(Opcode::JumpIf(Condition::NC, imm16)),
            0xD4 => Ok(Opcode::CallIf(Condition::NC, imm16)),
            0xD5 => Ok(Opcode::Push(StackPair::DE)),
            0xD6 => Ok(Opcode::ArithImmediate(Alu::Sub, imm8)),
            0xD7 => Ok(Opcode::Restart(2)),
            0xD8 => Ok(Opcode::ReturnIf(Condition::C)),
            0xD9 => Ok(Opcode::ReturnInterrupt),
            0xDA => Ok(Opcode::JumpIf(Condition::C, imm16)),
            0xDC => Ok(Opcode::CallIf(Condition::C, imm16)),
            0xDE => Ok(Opcode::ArithImmediate(Alu::Sbc, imm8)),
            0xDF => Ok(Opcode::Restart(3)),
            0xE0 => Ok(Opcode::StoreAHigh(imm8)),
            0xE1 => Ok(Opcode::Pop(StackPair::HL)),
            0xE2 => Ok(Opcode::StoreAHighC),
            0xE5 => Ok(Opcode::Push(StackPair::HL)),
            0xE6 => Ok(Opcode::ArithImmediate(Alu::And, imm8)),
            0xE7 => Ok(Opcode::Restart(4)),
            0xE8 => Ok(Opcode::AddSp(imm8.to_signed())),
            0xE9 => Ok(Opcode::JumpHl),
            0xEA => Ok(Opcode::StoreAAbsolute(imm16)),
            0xEE => Ok(Opcode::ArithImmediate(Alu::Xor, imm8)),
            0xEF => Ok(Opcode::Restart(5)),
            0xF0 => Ok(Opcode::LoadAHigh(imm8)),
            0xF1 => Ok(Opcode::Pop(StackPair::AF)),
            0xF2 => Ok(Opcode::LoadAHighC),
            0xF3 => Ok(Opcode::Di),
            0xF5 => Ok(Opcode::Push(StackPair::AF)),
            0xF6 => Ok(Opcode::ArithImmediate(Alu::Or, imm8)),
            0xF7 => Ok(Opcode::Restart(6)),
            0xF8 => Ok(Opcode::LoadHlSpOffset(imm8.to_signed())),
            0xF9 => Ok(Opcode::LoadSpHl),
            0xFA => Ok(Opcode::LoadAAbsolute(imm16)),
            0xFB => Ok(Opcode::Ei),
            0xFE => Ok(Opcode::ArithImmediate(Alu::Cp, imm8)),
            0xFF => Ok(Opcode::Restart(7)),
        _ => Err(Fault::IllegalOpcode(b0)),
    }
}

/// Decodes a byte of the primary table, the extension prefix apart, given
/// the immediate bytes that follow it.
pub fn decode(b0: Byte, imm8: Byte, imm16: Address) -> (out: Result<Opcode, Fault>)
    requires
        b0.0 != 0xCB,
    ensures
        out == decoded(b0, imm8, imm16),
        out matches Ok(op) ==> op.wf(),
{
    if b0.0 < 0x40 {
        decode_low(b0, imm8, imm16)
    } else if b0.0 == 0x76 {
        Ok(Opcode::Halt)
    } else if b0.0 < 0x80 {
        Ok(Opcode::Load(operand_from_code((b0.0 / 8) % 8), operand_from_code(b0.0 % 8)))
    } else if b0.0 < 0xC0 {
        Ok(Opcode::Arith(alu_from_code((b0.0 / 8) % 8), operand_from_code(b0.0 % 8)))
    } else {
        decode_high(b0, imm8, imm16)
    }
}

/// Decodes a byte of the extended table.
pub fn decode_extended(b: Byte) -> (out: Opcode)
    ensures
        out == decoded_extended(b),
        out.wf(),
{
    let y: u8 = (b.0 / 8) % 8;
    let x = operand_from_code(b.0 % 8);
    if b.0 < 0x40 {
        Opcode::Rotate(shift_from_code(y), x)
    } else if b.0 < 0x80 {
        Opcode::TestBit(y, x)
    } else if b.0 < 0xC0 {
        Opcode::ResetBit(y, x)
    } else {
        Opcode::SetBit(y, x)
    }
}

impl CentralProcessor {
    /// Fetches the instruction at the program counter, immediate bytes
    /// included, and decodes it.
    pub fn fetch_instruction(&mut self, mmap: &MemoryMap) -> (out: Result<Opcode, Fault>)
        requires
            mmap.wf(),
        ensures
            reached(*final(self), *mmap, out, Machine::of(*old(self), *mmap).fetched()),
            out matches Ok(op) ==> op.wf(),
    {
        let b0 = self.consume_byte(mmap)?;
        if b0.0 == 0xCB {
            return self.fetch_cb_instruction(mmap);
        }
        let count = operand_count(b0);
        if count == 0 {
            decode(b0, Byte(0), Address(0))
        } else if count == 1 {
            let imm8 = self.consume_byte(mmap)?;
            decode(b0, imm8, Address(0))
        } else {
            let imm16 = self.consume_pair(mmap)?;
            decode(b0, Byte(0), imm16)
        }
    }

    /// Fetches the byte that follows the extension prefix and decodes it.
    pub fn fetch_cb_instruction(&mut self, mmap: &MemoryMap) -> (out: Result<Opcode, Fault>)
        requires
            mmap.wf(),
        ensures
            reached(*final(self), *mmap, out, Machine::of(*old(self), *mmap).fetched_extended()),
            out matches Ok(op) ==> op.wf(),
    {
        let b = self.consume_byte(mmap)?;
        Ok(decode_extended(b))
    }
}

} // verus!
