use vstd::prelude::*;
use crate::cpu::CentralProcessor;
use crate::cpu::bit_value;
use crate::types::address::Address;
use crate::types::byte::lemma_bit_written;
use crate::types::byte::lemma_edge_bits;
use crate::types::byte::Byte;
use crate::types::signed_byte::SignedByte;

verus! {

/// The low eight bits of a sum or difference.
pub open spec fn low_octet(v: int) -> Byte {
    Byte((v % 256) as u8)
}

/// Rotate left: bit 7 moves round into bit 0.
pub open spec fn rotated_left(v: Byte) -> Byte {
    Byte(((v.0 * 2) % 256 + v.0 / 128) as u8)
}

/// Rotate right: bit 0 moves round into bit 7.
pub open spec fn rotated_right(v: Byte) -> Byte {
    Byte((v.0 / 2 + (v.0 % 2) * 128) as u8)
}

/// Shift left by one place; `fill` enters at bit 0.
pub open spec fn shifted_left(v: Byte, fill: bool) -> Byte {
    Byte(((v.0 * 2) % 256 + bit_value(fill)) as u8)
}

/// Shift right by one place; `fill` enters at bit 7.
pub open spec fn shifted_right(v: Byte, fill: bool) -> Byte {
    Byte((v.0 / 2 + 128 * bit_value(fill)) as u8)
}

/// The octet with its two nibbles exchanged.
pub open spec fn swapped(v: Byte) -> Byte {
    Byte(((v.0 % 16) * 16 + v.0 / 16) as u8)
}

/// Relates the shift and mask forms of the rotate family to arithmetic.
proof fn lemma_shift_forms(v: u8)
    by (bit_vector)
    ensures
        (v << 1u8) == ((v as u16 * 2) % 256) as u8,
        (v >> 1u8) == v / 2u8,
        (((v & 0xF0u8) >> 4u8) | ((v & 0x0Fu8) << 4u8)) == ((v % 16u8) as u16 * 16 + (v / 16u8) as u16) as u8,
        (v & 0x0Fu8) == v % 16u8,
{
}

/// Relates the mask used for the twelve-bit half carry to arithmetic.
proof fn lemma_low_twelve(v: u16)
    by (bit_vector)
    ensures
        (v & 0x0FFFu16) == v % 4096u16,
        (v & 0x00FFu16) == v % 256u16,
        (v & 0x000Fu16) == v % 16u16,
{
}

impl CentralProcessor {
    /// A plus `val` plus the incoming carry: Z from the result, N clear, H on
    /// a carry out of bit 3, C on a carry out of bit 7.
    pub open spec fn added(self, val: Byte, carry: bool) -> CentralProcessor {
        let sum = self.a.0 + val.0 + bit_value(carry);
        CentralProcessor { a: low_octet(sum), ..self }.with_flags(
            low_octet(sum).0 == 0,
            false,
            self.a.0 % 16 + val.0 % 16 + bit_value(carry) > 15,
            sum > 255,
        )
    }

    /// A minus `val` minus the incoming borrow: Z from the result, N set, H
    /// on a borrow from bit 4, C on a borrow from bit 8.
    pub open spec fn subtracted(self, val: Byte, borrow: bool) -> CentralProcessor {
        let diff = self.a.0 - val.0 - bit_value(borrow);
        CentralProcessor { a: low_octet(diff), ..self }.with_flags(
            low_octet(diff).0 == 0,
            true,
            self.a.0 % 16 < val.0 % 16 + bit_value(borrow),
            diff < 0,
        )
    }

    /// The flags of `subtracted` with A left as it was.
    pub open spec fn compared(self, val: Byte) -> CentralProcessor {
        CentralProcessor { a: self.a, ..self.subtracted(val, false) }
    }

    /// A replaced by `result`, Z from it, N and C clear, H as given.
    pub open spec fn with_logic_result(self, result: Byte, half: bool) -> CentralProcessor {
        CentralProcessor { a: result, ..self }.with_flags(result.0 == 0, false, half, false)
    }

    /// The flags after a rotate or shift that produced `result` and moved
    /// `carry` out.
    pub open spec fn with_shift_flags(self, result: Byte, carry: bool) -> CentralProcessor {
        self.with_flags(result.0 == 0, false, false, carry)
    }

    /// Clears all four flags.
    pub fn clear_flags(&mut self)
        ensures
            *final(self) == old(self).with_flags(false, false, false, false),
    {
        self.z_flag = false;
        self.n_flag = false;
        self.h_flag = false;
        self.c_flag = false;
    }

    /// Sets Z exactly when `val` is zero.
    pub fn check_zero(&mut self, val: Byte)
        ensures
            *final(self) == (CentralProcessor { z_flag: val.0 == 0, ..*old(self) }),
    {
        self.z_flag = val.0 == 0;
    }

    /// ADD: A becomes A plus `val`.
    pub fn add(&mut self, val: Byte)
        ensures
            *final(self) == old(self).added(val, false),
    {
        let prev = self.a;
        self.a = Byte(self.a.0.wrapping_add(val.0));
        self.check_zero(self.a);
        self.check_half_carry_add_byte(prev, val);
        self.check_carry_add_byte(prev, val);
        self.n_flag = false;
    }

    /// ADC: A becomes A plus `val` plus the carry flag.
    pub fn adc(&mut self, val: Byte)
        ensures
            *final(self) == old(self).added(val, old(self).c_flag),
    {
        let carry: u16 = if self.c_flag {
            1
        } else {
            0
        };
        let sum: u16 = self.a.0 as u16 + val.0 as u16 + carry;
        self.h_flag = (self.a.0 % 16) as u16 + (val.0 % 16) as u16 + carry > 15;
        self.c_flag = sum > 255;
        self.a = Byte((sum % 256) as u8);
        self.check_zero(self.a);
        self.n_flag = false;
    }

    /// SUB: A becomes A minus `val`.
    pub fn sub(&mut self, val: Byte)
        ensures
            *final(self) == old(self).subtracted(val, false),
    {
        let prev = self.a;
        self.a = Byte(self.a.0.wrapping_sub(val.0));
        self.check_zero(self.a);
        self.check_half_carry_sub_byte(prev, val);
        self.check_carry_sub_byte(prev, val);
        self.n_flag = true;
    }

    /// SBC: A becomes A minus `val` minus the carry flag.
    pub fn sbc(&mut self, val: Byte)
        ensures
            *final(self) == old(self).subtracted(val, old(self).c_flag),
    {
        let borrow: u16 = if self.c_flag {
            1
        } else {
            0
        };
        let take: u16 = val.0 as u16 + borrow;
        let prev: u16 = self.a.0 as u16;
        self.h_flag = ((self.a.0 % 16) as u16) < (val.0 % 16) as u16 + borrow;
        self.c_flag = prev < take;
        let diff: u16 = if prev < take {
            prev + 256 - take
        } else {
            prev - take
        };
        self.a = Byte(diff as u8);
        self.check_zero(self.a);
        self.n_flag = true;
    }

    /// CP: the flags of a subtraction whose result is thrown away.
    pub fn cp(&mut self, val: Byte)
        ensures
            *final(self) == old(self).compared(val),
    {
        let prev = self.a;
        self.sub(val);
        self.a = prev;
    }

    /// AND: A becomes the bitwise conjunction; H is set.
    pub fn and(&mut self, val: Byte)
        ensures
            *final(self) == old(self).with_logic_result(Byte(old(self).a.0 & val.0), true),
    {
        self.a = Byte(self.a.0 & val.0);
        self.clear_flags();
        self.h_flag = true;
        self.check_zero(self.a);
    }

    /// OR: A becomes the bitwise disjunction.
    pub fn or(&mut self, val: Byte)
        ensures
            *final(self) == old(self).with_logic_result(Byte(old(self).a.0 | val.0), false),
    {
        self.a = Byte(self.a.0 | val.0);
        self.clear_flags();
        self.check_zero(self.a);
    }

    /// XOR: A becomes the bitwise exclusive disjunction.
    pub fn xor(&mut self, val: Byte)
        ensures
            *final(self) == old(self).with_logic_result(Byte(old(self).a.0 ^ val.0), false),
    {
        self.a = Byte(self.a.0 ^ val.0);
        self.clear_flags();
        self.check_zero(self.a);
    }

    /// RLC: rotate left; C takes the bit that went round.
    pub fn rlc(&mut self, val: Byte) -> (out: Byte)
        ensures
            out == rotated_left(val),
            *final(self) == old(self).with_shift_flags(out, val.0 >= 128),
    {
        proof {
            lemma_shift_forms(val.0);
            lemma_edge_bits(val);
        }
        let b7 = val.is_bit_set(7);
        let mut out = Byte(val.0 << 1u8);
        out.write_bit(0, b7);
        self.clear_flags();
        self.c_flag = b7;
        self.check_zero(out);
        out
    }

    /// RRC: rotate right; C takes the bit that went round.
    pub fn rrc(&mut self, val: Byte) -> (out: Byte)
        ensures
            out == rotated_right(val),
            *final(self) == old(self).with_shift_flags(out, val.0 % 2 == 1),
    {
        proof {
            lemma_shift_forms(val.0);
            lemma_edge_bits(val);
        }
        let b0 = val.is_bit_set(0);
        let mut out = Byte(val.0 >> 1u8);
        out.write_bit(7, b0);
        self.clear_flags();
        self.c_flag = b0;
        self.check_zero(out);
        out
    }

    /// RL: rotate left through the carry flag.
    pub fn rl(&mut self, val: Byte) -> (out: Byte)
        ensures
            out == shifted_left(val, old(self).c_flag),
            *final(self) == old(self).with_shift_flags(out, val.0 >= 128),
    {
        proof {
            lemma_shift_forms(val.0);
            lemma_edge_bits(val);
        }
        let carry_in = self.c_flag;
        self.clear_flags();
        self.c_flag = val.is_bit_set(7);
        let mut out = Byte(val.0 << 1u8);
        out.write_bit(0, carry_in);
        self.check_zero(out);
        out
    }

    /// RR: rotate right through the carry flag.
    pub fn rr(&mut self, val: Byte) -> (out: Byte)
        ensures
            out == shifted_right(val, old(self).c_flag),
            *final(self) == old(self).with_shift_flags(out, val.0 % 2 == 1),
    {
        proof {
            lemma_shift_forms(val.0);
            lemma_edge_bits(val);
        }
        let carry_in = self.c_flag;
        self.clear_flags();
        self.c_flag = val.is_bit_set(0);
        let mut out = Byte(val.0 >> 1u8);
        out.write_bit(7, carry_in);
        self.check_zero(out);
        out
    }

    /// SLA: shift left; zero enters at bit 0.
    pub fn sla(&mut self, val: Byte) -> (out: Byte)
        ensures
            out == shifted_left(val, false),
            *final(self) == old(self).with_shift_flags(out, val.0 >= 128),
    {
        proof {
            lemma_shift_forms(val.0);
            lemma_edge_bits(val);
        }
        self.clear_flags();
        self.c_flag = val.is_bit_set(7);
        let out = Byte(val.0 << 1u8);
        self.check_zero(out);
        out
    }

    /// SRA: shift right; bit 7 keeps its value.
    pub fn sra(&mut self, val: Byte) -> (out: Byte)
        ensures
            out == shifted_right(val, val.0 >= 128),
            *final(self) == old(self).with_shift_flags(out, val.0 % 2 == 1),
    {
        proof {
            lemma_shift_forms(val.0);
            lemma_edge_bits(val);
        }
        self.clear_flags();
        self.c_flag = val.is_bit_set(0);
        let mut out = Byte(val.0 >> 1u8);
        out.write_bit(7, val.is_bit_set(7));
        self.check_zero(out);
        out
    }

    /// SRL: shift right; zero enters at bit 7.
    pub fn srl(&mut self, val: Byte) -> (out: Byte)
        ensures
            out == shifted_right(val, false),
            *final(self) == old(self).with_shift_flags(out, val.0 % 2 == 1),
    {
        proof {
            lemma_shift_forms(val.0);
            lemma_edge_bits(val);
        }
        self.clear_flags();
        self.c_flag = val.is_bit_set(0);
        let out = Byte(val.0 >> 1u8);
        self.check_zero(out);
        out
    }

    /// SWAP: exchange the nibbles; C is cleared.
    pub fn swap(&mut self, val: Byte) -> (out: Byte)
        ensures
            out == swapped(val),
            *final(self) == old(self).with_shift_flags(out, false),
    {
        proof {
            lemma_shift_forms(val.0);
            lemma_edge_bits(val);
        }
        self.clear_flags();
        let upper: u8 = val.0 & 0xF0u8;
        let lower: u8 = val.0 & 0x0Fu8;
        let out = Byte((upper >> 4u8) | (lower << 4u8));
        self.check_zero(out);
        out
    }

    /// BIT: Z is set exactly when bit `pos` of `val` is zero; N is cleared,
    /// H is set, C is kept.
    pub fn bit(&mut self, pos: u8, val: Byte)
        requires
            pos < 8,
        ensures
            *final(self) == old(self).with_flags(!val.bit(pos), false, true, old(self).c_flag),
    {
        self.z_flag = !val.is_bit_set(pos);
        self.n_flag = false;
        self.h_flag = true;
    }

    /// Sets C exactly when `a + b` does not fit in eight bits.
    pub fn check_carry_add_byte(&mut self, a: Byte, b: Byte)
        ensures
            *final(self) == (CentralProcessor { c_flag: a.0 + b.0 > 255, ..*old(self) }),
    {
        let res: u8 = a.0.wrapping_add(b.0);
        self.c_flag = (res < a.0) || (res < b.0);
    }

    /// Sets C exactly when `a + b` does not fit in sixteen bits.
    pub fn check_carry_add_address(&mut self, a: Address, b: Address)
        ensures
            *final(self) == (CentralProcessor { c_flag: a.0 + b.0 > 65535, ..*old(self) }),
    {
        let res: u16 = a.0.wrapping_add(b.0);
        self.c_flag = (res < a.0) || (res < b.0);
    }

    /// Sets C exactly when `a - b` needs a borrow.
    pub fn check_carry_sub_address(&mut self, a: Address, b: Address)
        ensures
            *final(self) == (CentralProcessor { c_flag: a.0 < b.0, ..*old(self) }),
    {
        self.c_flag = a.0 < b.0;
    }

    /// Sets C for a stack-relative addition: the carry out of bit 7 when the
    /// operand's bit pattern is added, unsigned, to the low octet of `a`.
    pub fn check_carry_signed_address(&mut self, a: Address, b: SignedByte)
        ensures
            *final(self) == (CentralProcessor {
                c_flag: a.0 % 256 + b.raw() > 255,
                ..*old(self)
            }),
    {
        proof {
            lemma_low_twelve(a.0);
        }
        let low: u16 = a.0 & 0x00FFu16;
        let operand: u16 = b.to_unsigned().0 as u16;
        self.c_flag = low + operand > 0xFF;
    }

    /// Sets H for a stack-relative addition: the carry out of bit 3 when the
    /// operand's bit pattern is added, unsigned, to the low octet of `a`.
    pub fn check_half_carry_signed_address(&mut self, a: Address, b: SignedByte)
        ensures
            *final(self) == (CentralProcessor {
                h_flag: a.0 % 16 + b.raw() % 16 > 15,
                ..*old(self)
            }),
    {
        proof {
            lemma_low_twelve(a.0);
        }
        let low: u16 = a.0 & 0x000Fu16;
        let operand: u16 = (b.to_unsigned().0 % 16) as u16;
        self.h_flag = low + operand > 0xF;
    }

    /// Sets H exactly when adding the low nibbles carries out of bit 3.
    pub fn check_half_carry_add_byte(&mut self, a: Byte, b: Byte)
        ensures
            *final(self) == (CentralProcessor { h_flag: a.0 % 16 + b.0 % 16 > 15, ..*old(self) }),
    {
        proof {
            lemma_shift_forms(a.0);
            lemma_shift_forms(b.0);
        }
        self.h_flag = (a.0 & 0x0Fu8) + (b.0 & 0x0Fu8) > 0xF;
    }

    /// Sets H exactly when adding the low twelve bits carries out of bit 11.
    pub fn check_half_carry_add_address(&mut self, a: Address, b: Address)
        ensures
            *final(self) == (CentralProcessor {
                h_flag: a.0 % 4096 + b.0 % 4096 > 4095,
                ..*old(self)
            }),
    {
        proof {
            lemma_low_twelve(a.0);
            lemma_low_twelve(b.0);
        }
        self.h_flag = (a.0 & 0x0FFFu16) + (b.0 & 0x0FFFu16) > 0x0FFF;
    }

    /// Sets H exactly when subtracting the low nibbles borrows from bit 4.
    pub fn check_half_carry_sub_byte(&mut self, a: Byte, b: Byte)
        ensures
            *final(self) == (CentralProcessor { h_flag: a.0 % 16 < b.0 % 16, ..*old(self) }),
    {
        proof {
            lemma_shift_forms(a.0);
            lemma_shift_forms(b.0);
        }
        self.h_flag = (a.0 & 0x0Fu8) < (b.0 & 0x0Fu8);
    }

    /// Sets C exactly when `a - b` needs a borrow.
    pub fn check_carry_sub_byte(&mut self, a: Byte, b: Byte)
        ensures
            *final(self) == (CentralProcessor { c_flag: a.0 < b.0, ..*old(self) }),
    {
        let res: u8 = a.0.wrapping_sub(b.0);
        self.c_flag = res > a.0;
    }
}

/// Rotating right and then left gives the octet back, and so does
/// exchanging the nibbles twice.
pub proof fn lemma_rotations_undo(x: Byte)
    ensures
        rotated_left(rotated_right(x)) == x,
        rotated_right(rotated_left(x)) == x,
        swapped(swapped(x)) == x,
{
}

/// A bit test of an octet with bit `n` joined in clears Z, and one of an
/// octet with bit `n` masked out sets Z; N is cleared, H is set and C is
/// kept either way.
pub proof fn lemma_bit_test(cpu: CentralProcessor, x: Byte, n: u8)
    requires
        n < 8,
    ensures
        cpu.with_flags(!Byte(x.0 | (1u8 << n)).bit(n), false, true, cpu.c_flag) == cpu.with_flags(
            false,
            false,
            true,
            cpu.c_flag,
        ),
        cpu.with_flags(!Byte(x.0 & !(1u8 << n)).bit(n), false, true, cpu.c_flag) == cpu.with_flags(
            true,
            false,
            true,
            cpu.c_flag,
        ),
{
    lemma_bit_written(x, n, true);
    lemma_bit_written(x, n, false);
}

/// After an addition, a subtraction or a logic operation Z is set exactly
/// when the result, which is the new A, is zero; after a comparison,
/// exactly when the operand equals A.
pub proof fn lemma_zero_flag_consistent(cpu: CentralProcessor, val: Byte, carry: bool, half: bool)
    ensures
        cpu.added(val, carry).z_flag <==> cpu.added(val, carry).a.0 == 0,
        cpu.subtracted(val, carry).z_flag <==> cpu.subtracted(val, carry).a.0 == 0,
        cpu.with_logic_result(val, half).z_flag <==> cpu.with_logic_result(val, half).a.0 == 0,
        cpu.compared(val).z_flag <==> cpu.a == val,
        cpu.compared(val).a == cpu.a,
{
}

} // verus!
