use vstd::prelude::*;
use crate::types::byte::Byte;
use crate::types::signed_byte::SignedByte;

verus! {

/// A location on the sixteen-bit bus; also the value of a register pair.
#[derive(Clone, Copy, Debug, Default, PartialEq, Eq, Structural, Hash)]
pub struct Address(pub u16);

impl Address {
    /// The upper octet.
    pub open spec fn high(self) -> Byte {
        Byte((self.0 / 256) as u8)
    }

    /// The lower octet.
    pub open spec fn low(self) -> Byte {
        Byte((self.0 % 256) as u8)
    }

    /// The pair whose upper octet is `h` and whose lower octet is `l`.
    pub open spec fn join(h: Byte, l: Byte) -> Address {
        Address((h.0 * 256 + l.0) as u16)
    }

    /// The address `n` places further on, wrapping at the end of the bus.
    pub open spec fn offset(self, n: int) -> Address {
        Address(((self.0 + n) % 65536) as u16)
    }

    /// Splits the value into its upper and lower octets.
    pub fn split(self) -> (out: (Byte, Byte))
        ensures
            out.0 == self.high(),
            out.1 == self.low(),
    {
        (Byte((self.0 / 256) as u8), Byte((self.0 % 256) as u8))
    }

    /// Joins an upper and a lower octet.
    pub fn from_pair(h: Byte, l: Byte) -> (out: Address)
        ensures
            out == Address::join(h, l),
    {
        Address(h.0 as u16 * 256 + l.0 as u16)
    }

    /// The following address, wrapping from `0xFFFF` to zero.
    pub fn next(self) -> (out: Address)
        ensures
            out == self.offset(1),
    {
        Address(self.0.wrapping_add(1))
    }

    /// The address `by` places away, wrapping at either end of the bus.
    pub fn displaced(self, by: SignedByte) -> (out: Address)
        ensures
            out == self.offset(by.0 as int),
    {
        let moved: i32 = self.0 as i32 + by.0 as i32;
        if moved < 0 {
            Address((moved + 65536) as u16)
        } else if moved > 65535 {
            Address((moved - 65536) as u16)
        } else {
            Address(moved as u16)
        }
    }

    /// The preceding address, wrapping from zero to `0xFFFF`.
    pub fn prev(self) -> (out: Address)
        ensures
            out == self.offset(-1),
    {
        Address(self.0.wrapping_sub(1))
    }
}

/// Splitting a pair and joining the halves gives the pair back, and the
/// other way round.
pub proof fn lemma_split_join(a: Address, h: Byte, l: Byte)
    ensures
        Address::join(a.high(), a.low()) == a,
        Address::join(h, l).high() == h,
        Address::join(h, l).low() == l,
{
}

} // verus!
