//! The four-channel, eight-bit-per-channel pixel.

use vstd::prelude::*;

verus! {

/// A pixel: red, green, blue and alpha, eight bits each.
#[derive(Debug, Eq, PartialEq, Structural, Clone, Copy)]
pub struct RGBA {
    pub r: u8,
    pub g: u8,
    pub b: u8,
    pub a: u8,
}

impl RGBA {
    /// Opaque black, the pixel that precedes the first decoded pixel.
    pub open spec fn spec_new() -> RGBA {
        RGBA { r: 0, g: 0, b: 0, a: 255 }
    }

    /// The pixel whose colour channels are the three bytes of `bytes`, fully opaque.
    pub open spec fn spec_from_rgb_bytes(bytes: Seq<u8>) -> RGBA
        recommends
            bytes.len() == 3,
    {
        RGBA { r: bytes[0], g: bytes[1], b: bytes[2], a: 255 }
    }

    /// The pixel whose channels are the four bytes of `bytes`.
    pub open spec fn spec_from_rgba_bytes(bytes: Seq<u8>) -> RGBA
        recommends
            bytes.len() == 4,
    {
        RGBA { r: bytes[0], g: bytes[1], b: bytes[2], a: bytes[3] }
    }

    /// Red, green and blue, in this order.
    pub open spec fn spec_to_rgb_bytes(self) -> Seq<u8> {
        seq![self.r, self.g, self.b]
    }

    /// Red, green, blue and alpha, in this order.
    pub open spec fn spec_to_rgba_bytes(self) -> Seq<u8> {
        seq![self.r, self.g, self.b, self.a]
    }

    /// Opaque black.
    pub fn new() -> (pixel: RGBA)
        ensures
            pixel == RGBA::spec_new(),
    {
        RGBA { r: 0, g: 0, b: 0, a: 255 }
    }

    /// The colour channels as a raw triple; alpha is dropped.
    #[inline]
    pub fn to_rgb_bytes(&self) -> (bytes: [u8; 3])
        ensures
            bytes@ == self.spec_to_rgb_bytes(),
    {
        [self.r, self.g, self.b]
    }

    /// A fully opaque pixel from a raw triple.
    #[inline]
    pub fn from_rgb_bytes(bytes: &[u8; 3]) -> (pixel: RGBA)
        ensures
            pixel == RGBA::spec_from_rgb_bytes(bytes@),
    {
        RGBA { r: bytes[0], g: bytes[1], b: bytes[2], a: 255u8 }
    }

    /// All four channels as a raw quadruple.
    #[inline]
    pub fn to_rgba_bytes(&self) -> (bytes: [u8; 4])
        ensures
            bytes@ == self.spec_to_rgba_bytes(),
    {
        [self.r, self.g, self.b, self.a]
    }

    /// A pixel from a raw quadruple.
    #[inline]
    pub fn from_rgba_bytes(bytes: &[u8; 4]) -> (pixel: RGBA)
        ensures
            pixel == RGBA::spec_from_rgba_bytes(bytes@),
    {
        RGBA { r: bytes[0], g: bytes[1], b: bytes[2], a: bytes[3] }
    }
}

impl Default for RGBA {
    /// Opaque black, as [`RGBA::new`].
    fn default() -> (pixel: RGBA)
        ensures
            pixel == RGBA::spec_new(),
    {
        RGBA::new()
    }
}

/// A quadruple written out and read back is the pixel it came from.
pub proof fn lemma_rgba_bytes_round_trip(pixel: RGBA)
    ensures
        pixel.spec_to_rgba_bytes().len() == 4,
        RGBA::spec_from_rgba_bytes(pixel.spec_to_rgba_bytes()) == pixel,
{
}

/// A quadruple read and written out again is the quadruple it came from.
pub proof fn lemma_rgba_pixel_round_trip(bytes: Seq<u8>)
    requires
        bytes.len() == 4,
    ensures
        RGBA::spec_from_rgba_bytes(bytes).spec_to_rgba_bytes() == bytes,
{
}

/// A triple read and written out again is the triple it came from, and the
/// pixel read is opaque.
pub proof fn lemma_rgb_pixel_round_trip(bytes: Seq<u8>)
    requires
        bytes.len() == 3,
    ensures
        RGBA::spec_from_rgb_bytes(bytes).spec_to_rgb_bytes() == bytes,
        RGBA::spec_from_rgb_bytes(bytes).a == 255,
{
}

/// Written out as a triple and read back, a pixel keeps its colour and
/// becomes opaque.
pub proof fn lemma_rgb_bytes_round_trip(pixel: RGBA)
    ensures
        RGBA::spec_from_rgb_bytes(pixel.spec_to_rgb_bytes()) == (RGBA { a: 255, ..pixel }),
{
}

} // verus!
