use vstd::prelude::*;

verus! {

/// A two's complement octet, as used for relative jumps and stack offsets.
#[derive(Clone, Copy, Debug, Default, PartialEq, Eq, Structural, Hash)]
pub struct SignedByte(pub i8);

impl SignedByte {
    /// The unsigned octet with the same bit pattern.
    pub open spec fn raw(self) -> int {
        if self.0 >= 0 {
            self.0 as int
        } else {
            self.0 + 256
        }
    }

    /// Reinterprets the value as the unsigned octet with the same bit pattern.
    pub fn to_unsigned(self) -> (out: crate::types::byte::Byte)
        ensures
            out.0 == self.raw(),
    {
        if self.0 >= 0 {
            crate::types::byte::Byte(self.0 as u8)
        } else {
            crate::types::byte::Byte((self.0 as i16 + 256) as u8)
        }
    }
}

} // verus!
