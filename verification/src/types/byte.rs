use vstd::prelude::*;
use crate::types::address::Address;
use crate::types::signed_byte::SignedByte;

verus! {

/// An octet as seen on the data bus.
#[derive(Clone, Copy, Debug, Default, PartialEq, Eq, Structural, Hash)]
pub struct Byte(pub u8);

/// The weight `2^n` of bit `n` of an octet.
pub open spec fn bit_weight(n: u8) -> u8
    recommends
        n < 8,
{
    if n == 0 {
        1
    } else if n == 1 {
        2
    } else if n == 2 {
        4
    } else if n == 3 {
        8
    } else if n == 4 {
        16
    } else if n == 5 {
        32
    } else if n == 6 {
        64
    } else {
        128
    }
}

/// Relates the shift-and-mask forms used for single bits to their weights.
proof fn lemma_bit_forms(v: u8, n: u8)
    by (bit_vector)
    requires
        n < 8,
    ensures
        (1u8 << n) == bit_weight(n),
        (v & (1u8 << n) != 0) == ((v / bit_weight(n)) % 2 == 1),
        (v / bit_weight(n)) % 2 == 1 ==> (v | (1u8 << n)) == v,
        (v / bit_weight(n)) % 2 != 1 ==> (v | (1u8 << n)) == v + bit_weight(n),
        (v / bit_weight(n)) % 2 == 1 ==> (v & !(1u8 << n)) == v - bit_weight(n),
        (v / bit_weight(n)) % 2 != 1 ==> (v & !(1u8 << n)) == v,
        ((v | (1u8 << n)) / bit_weight(n)) % 2 == 1,
        ((v & !(1u8 << n)) / bit_weight(n)) % 2 != 1,
{
}

/// A bit reads as it was last written, whether it is written through the
/// bit operations or by joining in or masking out its weight.
pub proof fn lemma_bit_written(v: Byte, n: u8, set: bool)
    requires
        n < 8,
    ensures
        v.with_bit(n, set).bit(n) == set,
        Byte(v.0 | (1u8 << n)) == v.with_bit(n, true),
        Byte(v.0 & !(1u8 << n)) == v.with_bit(n, false),
{
    lemma_bit_forms(v.0, n);
    lemma_bit_forms((v.0 | (1u8 << n)), n);
    lemma_bit_forms((v.0 & !(1u8 << n)), n);
}

/// The top bit is set from 128 on, the bottom bit on odd values; a value
/// below 128 has a clear top bit after halving.
pub proof fn lemma_edge_bits(v: Byte)
    ensures
        v.bit(7) == (v.0 >= 128),
        v.bit(0) == (v.0 % 2 == 1),
        !Byte(v.0 / 2).bit(7),
        !Byte(((v.0 * 2) % 256) as u8).bit(0),
{
    assert(bit_weight(7) == 128 && bit_weight(0) == 1);
    assert(v.0 / 128 == 0 || v.0 / 128 == 1);
    assert((v.0 / 2) / 128 == 0);
    assert(((v.0 * 2) % 256) % 2 == 0);
}

impl Byte {
    /// Whether bit `n` is one: the digit of weight `2^n` in the binary expansion.
    pub open spec fn bit(self, n: u8) -> bool {
        (self.0 / bit_weight(n)) % 2 == 1
    }

    /// The octet with bit `n` forced to `set` and every other bit kept.
    pub open spec fn with_bit(self, n: u8, set: bool) -> Byte {
        if self.bit(n) == set {
            self
        } else if set {
            Byte((self.0 + bit_weight(n)) as u8)
        } else {
            Byte((self.0 - bit_weight(n)) as u8)
        }
    }

    /// The value read as a two's complement number.
    pub open spec fn signed(self) -> int {
        if self.0 < 128 {
            self.0 as int
        } else {
            self.0 - 256
        }
    }

    /// Widens the octet to a bus address in the zero page.
    pub fn to_address(self) -> (out: Address)
        ensures
            out.0 == self.0,
    {
        Address(self.0 as u16)
    }

    /// Tests bit `n`.
    pub fn is_bit_set(&self, n: u8) -> (out: bool)
        requires
            n < 8,
        ensures
            out == self.bit(n),
    {
        proof {
            lemma_bit_forms(self.0, n);
        }
        let mask: u8 = 1u8 << n;
        self.0 & mask != 0
    }

    /// Sets bit `n`, leaving the others as they were.
    pub fn set_bit(&mut self, n: u8)
        requires
            n < 8,
        ensures
            *final(self) == old(self).with_bit(n, true),
    {
        proof {
            lemma_bit_forms(self.0, n);
        }
        let mask: u8 = 1u8 << n;
        self.0 = self.0 | mask;
    }

    /// Forces bit `n` to `set`, leaving the others as they were.
    pub fn write_bit(&mut self, n: u8, set: bool)
        requires
            n < 8,
        ensures
            *final(self) == old(self).with_bit(n, set),
    {
        proof {
            lemma_bit_forms(self.0, n);
        }
        let mask: u8 = 1u8 << n;
        if set {
            self.0 = self.0 | mask;
        } else {
            self.0 = self.0 & !mask;
        }
    }

    /// Reinterprets the bit pattern as a two's complement number.
    pub fn to_signed(self) -> (out: SignedByte)
        ensures
            out.0 == self.signed(),
    {
        if self.0 < 128 {
            SignedByte(self.0 as i8)
        } else {
            SignedByte((self.0 as i16 - 256) as i8)
        }
    }
}

} // verus!
