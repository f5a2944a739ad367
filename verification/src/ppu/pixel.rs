use vstd::prelude::*;

verus! {

/// One colour, eight bits to the channel.
#[derive(Clone, Copy, Debug, PartialEq, Eq, Structural)]
pub struct Pixel {
    pub r: u8,
    pub g: u8,
    pub b: u8,
}

impl Pixel {
    /// The colour as the frame sink takes it: red, green and blue in the
    /// low twenty-four bits, red uppermost.
    pub open spec fn packed(self) -> u32 {
        (self.r * 65536 + self.g * 256 + self.b) as u32
    }

    /// Black.
    pub fn black() -> (out: Pixel)
        ensures
            out == (Pixel { r: 0, g: 0, b: 0 }),
    {
        Pixel { r: 0, g: 0, b: 0 }
    }

    /// White.
    pub fn white() -> (out: Pixel)
        ensures
            out == (Pixel { r: 255, g: 255, b: 255 }),
    {
        Pixel { r: 255, g: 255, b: 255 }
    }

    /// Packs the colour for the frame sink.
    pub fn pack(self) -> (out: u32)
        ensures
            out == self.packed(),
    {
        proof {
            lemma_pack_forms(self.r as u32, self.g as u32, self.b as u32);
        }
        let (r, g, b) = (self.r as u32, self.g as u32, self.b as u32);
        (r << 16u32) | (g << 8u32) | b
    }
}

/// Shifting the channels into place and joining them is the same as
/// weighting and adding them.
proof fn lemma_pack_forms(r: u32, g: u32, b: u32)
    by (bit_vector)
    requires
        r < 256,
        g < 256,
        b < 256,
    ensures
        ((r << 16u32) | (g << 8u32) | b) == (r * 65536u32 + g * 256u32 + b) as u32,
{
}

impl From<Pixel> for u32 {
    fn from(value: Pixel) -> (out: u32) {
        value.pack()
    }
}

impl vstd::std_specs::convert::FromSpecImpl<Pixel> for u32 {
    open spec fn obeys_from_spec() -> bool {
        true
    }

    open spec fn from_spec(value: Pixel) -> u32 {
        value.packed()
    }
}

} // verus!
