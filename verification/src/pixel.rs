//! The pixel type and its byte representation.

use vstd::prelude::*;

verus! {

/// A 32-bit pixel. In an encoded image its channels appear in the order
/// blue, green, red, alpha, one byte each.
#[derive(Debug, Clone, Copy, PartialEq, Eq, Structural, Hash)]
pub struct PixelBGRA {
    pub b: u8,
    pub g: u8,
    pub r: u8,
    pub a: u8,
}

/// Number of bytes that one pixel occupies in an encoded image.
pub const BYTES_PER_PIXEL: usize = 4;

impl PixelBGRA {
    /// The four bytes of this pixel as they are stored: blue, green, red, alpha.
    pub open spec fn bytes(self) -> Seq<u8> {
        seq![self.b, self.g, self.r, self.a]
    }

    /// The byte stored at position `k` (0 to 3) of this pixel.
    pub open spec fn channel(self, k: int) -> u8 {
        if k == 0 {
            self.b
        } else if k == 1 {
            self.g
        } else if k == 2 {
            self.r
        } else {
            self.a
        }
    }
}

impl Default for PixelBGRA {
    /// The pixel with every channel zero: transparent black.
    fn default() -> (p: Self)
        ensures
            p == (PixelBGRA { b: 0, g: 0, r: 0, a: 0 }),
    {
        PixelBGRA { r: 0, g: 0, b: 0, a: 0 }
    }
}

impl From<(u8, u8, u8, u8)> for PixelBGRA {
    /// Builds a pixel from a tuple in the order red, green, blue, alpha.
    fn from(t: (u8, u8, u8, u8)) -> (p: Self) {
        PixelBGRA { r: t.0, g: t.1, b: t.2, a: t.3 }
    }
}

impl vstd::std_specs::convert::FromSpecImpl<(u8, u8, u8, u8)> for PixelBGRA {
    open spec fn obeys_from_spec() -> bool {
        true
    }

    open spec fn from_spec(t: (u8, u8, u8, u8)) -> Self {
        PixelBGRA { r: t.0, g: t.1, b: t.2, a: t.3 }
    }
}

impl From<PixelBGRA> for (u8, u8, u8, u8) {
    /// Takes a pixel apart into a tuple in the order red, green, blue, alpha.
    fn from(p: PixelBGRA) -> (t: Self) {
        (p.r, p.g, p.b, p.a)
    }
}

impl vstd::std_specs::convert::FromSpecImpl<PixelBGRA> for (u8, u8, u8, u8) {
    open spec fn obeys_from_spec() -> bool {
        true
    }

    open spec fn from_spec(p: PixelBGRA) -> Self {
        (p.r, p.g, p.b, p.a)
    }
}

} // verus!
