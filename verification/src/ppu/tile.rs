use vstd::prelude::*;
use crate::types::byte::Byte;

verus! {

/// The sixteen bytes of one tile: eight rows of two bit planes.
#[derive(Clone, Debug)]
pub struct Tile(pub Vec<Byte>);

/// The attributes that accompany a background tile in the map.
#[derive(Clone, Copy, Debug, PartialEq, Eq, Structural)]
pub struct TileAttributes {
    pub priority: bool,
    pub vflip: bool,
    pub hflip: bool,
    pub vram_bank: bool,
    pub palette: u8,
}

impl TileAttributes {
    /// The attributes encoded by `value`: priority in bit 7, the vertical
    /// and horizontal flips in bits 6 and 5, the bank in bit 3, the palette
    /// in the low two bits.
    pub open spec fn decoded(value: Byte) -> TileAttributes {
        TileAttributes {
            priority: value.bit(7),
            vflip: value.bit(6),
            hflip: value.bit(5),
            vram_bank: value.bit(3),
            palette: value.0 % 4,
        }
    }

    /// Decodes an attribute byte.
    pub fn decode(value: Byte) -> (out: TileAttributes)
        ensures
            out == TileAttributes::decoded(value),
    {
        TileAttributes {
            priority: value.is_bit_set(7),
            vflip: value.is_bit_set(6),
            hflip: value.is_bit_set(5),
            vram_bank: value.is_bit_set(3),
            palette: value.0 % 4,
        }
    }
}

impl From<Byte> for TileAttributes {
    fn from(value: Byte) -> (out: TileAttributes) {
        TileAttributes::decode(value)
    }
}

impl vstd::std_specs::convert::FromSpecImpl<Byte> for TileAttributes {
    open spec fn obeys_from_spec() -> bool {
        true
    }

    open spec fn from_spec(value: Byte) -> TileAttributes {
        TileAttributes::decoded(value)
    }
}

} // verus!
