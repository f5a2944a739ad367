use vstd::prelude::*;
use crate::types::address::Address;
use crate::types::byte::Byte;

verus! {

/// The fatal conditions that the core reports to whoever drives it.
#[derive(Clone, Copy, Debug, PartialEq, Eq, Structural)]
pub enum Fault {
    /// The byte fetched is not an instruction.
    IllegalOpcode(Byte),
    /// The instruction is recognised but not modelled (DAA, HALT, STOP);
    /// carries the opcode and the address it was fetched from.
    Unimplemented(Byte, Address),
    /// The address lies in a range that must not be touched: echo memory,
    /// the gap behind object memory, the audio registers or a hole in the
    /// I/O page.
    Prohibited(Address),
    /// Video or object memory was read while the pixel processor owned it.
    Gated(Address),
    /// The selected bank lies outside the cartridge image, or beyond what
    /// the controller can address.
    BankOutOfRange(Address),
}

} // verus!
