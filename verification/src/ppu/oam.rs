use vstd::prelude::*;
use crate::types::byte::Byte;

verus! {

/// One of the forty records of object memory, decoded.
#[derive(Clone, Copy, Debug, PartialEq, Eq, Structural)]
pub struct ObjectAttribute {
    pub y: Byte,
    pub x: Byte,
    pub tile_index: Byte,
    pub is_occluded: bool,
    pub xflip: bool,
    pub yflip: bool,
    pub vram_bank: bool,
    pub pallete: u8,
}

impl ObjectAttribute {
    /// The record made of four consecutive bytes: position, tile, and a
    /// flag byte with the occlusion in bit 7, the flips in bits 6 and 5,
    /// the bank in bit 3 and the palette in the low three bits.
    pub open spec fn decoded(a: Byte, b: Byte, c: Byte, d: Byte) -> ObjectAttribute {
        ObjectAttribute {
            y: a,
            x: b,
            tile_index: c,
            is_occluded: d.bit(7),
            xflip: d.bit(6),
            yflip: d.bit(5),
            vram_bank: d.bit(3),
            pallete: d.0 % 8,
        }
    }

    /// Whether the object, `height` rows tall, covers scan line `line`. An
    /// object at `y` starts sixteen rows above it.
    pub open spec fn covers_line(self, line: int, height: int) -> bool {
        self.y.0 <= line + 16 < self.y.0 + height
    }

    /// Decodes four consecutive bytes of object memory.
    pub fn new(a: Byte, b: Byte, c: Byte, d: Byte) -> (out: ObjectAttribute)
        ensures
            out == ObjectAttribute::decoded(a, b, c, d),
    {
        ObjectAttribute {
            y: a,
            x: b,
            tile_index: c,
            is_occluded: d.is_bit_set(7),
            xflip: d.is_bit_set(6),
            yflip: d.is_bit_set(5),
            vram_bank: d.is_bit_set(3),
            pallete: d.0 % 8,
        }
    }

    /// Tests whether the object, `height` rows tall, covers scan line
    /// `line`.
    pub fn is_on_line(&self, line: u8, height: u8) -> (out: bool)
        ensures
            out == self.covers_line(line as int, height as int),
    {
        let row: u16 = line as u16 + 16;
        let top: u16 = self.y.0 as u16;
        top <= row && row < top + height as u16
    }
}

} // verus!
