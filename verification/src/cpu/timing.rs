//! The machine-cycle table of the instruction set, by opcode.
use vstd::prelude::*;
use crate::cpu::fetch::decoded;
use crate::cpu::fetch::decoded_extended;
use crate::cpu::fetch::decoded_high;
use crate::cpu::fetch::decoded_low;
use crate::cpu::fetch::operand_length;
use crate::cpu::machine::Machine;
use crate::cpu::opcodes::Opcode;
use crate::fault::Fault;
use crate::types::address::Address;
use crate::types::byte::Byte;

verus! {

/// The machine cycles of the instruction that a byte below `0x40`
/// encodes, a conditional jump counted as not taken.
pub open spec fn low_cycles(b0: u8) -> int {
    match b0 {
        0x00 | 0x04 | 0x05 | 0x07 | 0x0C | 0x0D | 0x0F | 0x10 | 0x14 | 0x15 | 0x17 | 0x1C |
        0x1D | 0x1F | 0x24 | 0x25 | 0x27 | 0x2C | 0x2D | 0x2F | 0x37 | 0x3C | 0x3D | 0x3F => 1,
        0x01 | 0x11 | 0x18 | 0x21 | 0x31 | 0x34 | 0x35 | 0x36 => 3,
        0x08 => 5,
        _ => 2,
    }
}

/// The machine cycles of the instruction that a byte from `0x40` to `0xBF`
/// encodes: one, or two when the instruction goes through `(HL)`; the halt
/// at `0x76` takes one.
pub open spec fn middle_cycles(b0: u8) -> int {
    if b0 != 0x76 && (b0 % 8 == 6 || (0x70 <= b0 <= 0x77)) {
        2
    } else {
        1
    }
}

/// The machine cycles of the instruction that a byte from `0xC0` on
/// encodes, a conditional instruction counted as not taken; zero for the
/// extension prefix and for the bytes that encode no instruction.
pub open spec fn high_cycles(b0: u8) -> int {
    match b0 {
        0xE9 | 0xF3 | 0xFB => 1,
        0xC0 | 0xC6 | 0xC8 | 0xCE | 0xD0 | 0xD6 | 0xD8 | 0xDE | 0xE2 | 0xE6 | 0xEE | 0xF2 |
        0xF6 | 0xF9 | 0xFE => 2,
        0xC1 | 0xC2 | 0xC4 | 0xCA | 0xCC | 0xD1 | 0xD2 | 0xD4 | 0xDA | 0xDC | 0xE0 | 0xE1 |
        0xF0 | 0xF1 | 0xF8 => 3,
        0xCD => 6,
        0xCB | 0xD3 | 0xDB | 0xDD | 0xE3 | 0xE4 | 0xEB | 0xEC | 0xED | 0xF4 | 0xFC | 0xFD => 0,
        _ => 4,
    }
}

/// The machine cycles of the instruction that a byte of the primary table
/// encodes, a conditional instruction counted as not taken.
pub open spec fn primary_cycles(b0: u8) -> int {
    if b0 < 0x40 {
        low_cycles(b0)
    } else if b0 < 0xC0 {
        middle_cycles(b0)
    } else {
        high_cycles(b0)
    }
}

/// The machine cycles that a conditional instruction takes on top when its
/// condition is met: one for a jump, three for a call or a return.
pub open spec fn taken_cycles(b0: u8) -> int {
    match b0 {
        0x20 | 0x28 | 0x30 | 0x38 => 1,
        0xC2 | 0xCA | 0xD2 | 0xDA => 1,
        0xC0 | 0xC8 | 0xD0 | 0xD8 => 3,
        0xC4 | 0xCC | 0xD4 | 0xDC => 3,
        _ => 0,
    }
}

/// The machine cycles of the instruction that a byte after the extension
/// prefix encodes: two on a register; through `(HL)` three for a bit test
/// and four for the rest.
pub open spec fn extended_cycles(b1: u8) -> int {
    if b1 % 8 != 6 {
        2
    } else if 0x40 <= b1 < 0x80 {
        3
    } else {
        4
    }
}

/// The table value for an opcode of the primary table, with the extra
/// cycles of a conditional instruction whose condition is met.
pub open spec fn table_cycles(b0: u8, taken: bool) -> int {
    primary_cycles(b0) + if taken {
        taken_cycles(b0)
    } else {
        0
    }
}

/// The cost of a decoded instruction of the lower quarter of the primary
/// table is the one that the table gives for its opcode.
proof fn lemma_low_cycles(b0: Byte, imm8: Byte, imm16: Address, taken: bool)
    requires
        b0.0 < 0x40,
    ensures
        decoded_low(b0, imm8, imm16).cycles(taken) == table_cycles(b0.0, taken),
{
}

/// The cost of a decoded instruction of the upper quarter of the primary
/// table is the one that the table gives for its opcode.
proof fn lemma_high_cycles(b0: Byte, imm8: Byte, imm16: Address, taken: bool)
    requires
        b0.0 >= 0xC0,
    ensures
        decoded_high(b0, imm8, imm16) matches Ok(op) ==> op.cycles(taken) == table_cycles(
            b0.0,
            taken,
        ),
{
}

/// The cost that the processor charges for an instruction is the one that
/// the table gives for its opcode: for each byte of the primary table that
/// encodes an instruction, with the extra cycles of a conditional
/// instruction whose condition is met, and for each byte of the extended
/// table.
pub proof fn lemma_cycles_by_opcode(b0: Byte, imm8: Byte, imm16: Address, taken: bool)
    ensures
        decoded(b0, imm8, imm16) matches Ok(op) ==> op.cycles(taken) == table_cycles(b0.0, taken),
        decoded_extended(b0).cycles(taken) == extended_cycles(b0.0),
{
    if b0.0 < 0x40 {
        lemma_low_cycles(b0, imm8, imm16, taken);
    } else if b0.0 >= 0xC0 {
        lemma_high_cycles(b0, imm8, imm16, taken);
    }
}

impl Machine {
    /// The byte after the extension prefix, when the byte at the program
    /// counter is the prefix and the byte after it can be read.
    pub open spec fn extended_opcode(self) -> Option<Byte> {
        match self.consumed_byte() {
            (next, Ok(b0)) => if b0.0 == 0xCB {
                match next.bus.read(next.cpu.pc) {
                    Ok(b1) => Some(b1),
                    Err(_) => None,
                }
            } else {
                None
            },
            (_, Err(_)) => None,
        }
    }
}

/// The tick that fetches and executes the instruction at the program
/// counter leaves on the cost counter the table value of its opcode less
/// one: the cycle that executing it has paid. For an instruction of the
/// primary table the opcode is the byte at the program counter, and the
/// flags before the instruction decide whether a conditional instruction
/// is taken; for one of the extended table it is the byte after the
/// prefix.
pub proof fn lemma_cost_by_table(m: Machine, b0: Byte, op: Opcode)
    requires
        m.cpu.cost == 0,
        m.bus.read(m.cpu.pc) == Ok::<Byte, Fault>(b0),
        m.fetched().1 == Ok::<Opcode, Fault>(op),
        m.cycled().1 is Ok,
    ensures
        b0.0 != 0xCB ==> m.cycled().0.cpu.cost == table_cycles(b0.0, m.cpu.takes(op)) - 1,
        b0.0 == 0xCB ==> (m.extended_opcode() matches Some(b1) && m.cycled().0.cpu.cost
            == extended_cycles(b1.0) - 1),
{
    let first = m.consumed_byte().0;
    let decoded_at = m.fetched().0;
    assert(decoded_at.cpu.takes(op) == m.cpu.takes(op)) by {
        assert(first.cpu.z_flag == m.cpu.z_flag && first.cpu.c_flag == m.cpu.c_flag);
        assert(decoded_at.cpu.z_flag == m.cpu.z_flag && decoded_at.cpu.c_flag == m.cpu.c_flag);
    }
    if b0.0 == 0xCB {
        let b1 = first.bus.read(first.cpu.pc)->Ok_0;
        lemma_cycles_by_opcode(b1, Byte(0), Address(0), m.cpu.takes(op));
    } else if operand_length(b0) == 0 {
        lemma_cycles_by_opcode(b0, Byte(0), Address(0), m.cpu.takes(op));
    } else if operand_length(b0) == 1 {
        lemma_cycles_by_opcode(b0, first.consumed_byte().1->Ok_0, Address(0), m.cpu.takes(op));
    } else {
        lemma_cycles_by_opcode(b0, Byte(0), first.consumed_pair().1->Ok_0, m.cpu.takes(op));
    }
}

} // verus!
