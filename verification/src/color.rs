//! RGBA colors, palette byte layout, and the index-to-bytes round trip.

use vstd::prelude::*;

verus! {

/// One palette entry: an RGBA color with 8-bit channels.
#[derive(Clone, Copy, Debug, PartialEq, Eq, Structural)]
pub struct Color {
    pub r: u8,
    pub g: u8,
    pub b: u8,
    pub a: u8,
}

/// Byte order in which a raster pass emits the four channels of a pixel.
///
/// Different texture consumers want different layouts, so the order is a
/// declared configuration of the generator, not a per-call-site choice.
#[derive(Clone, Copy, Debug, PartialEq, Eq, Structural)]
pub enum ChannelOrder {
    /// Bytes `r, g, b, a`.
    Rgba,
    /// Bytes `a, b, g, r`.
    Abgr,
}

impl Color {
    pub fn new(r: u8, g: u8, b: u8, a: u8) -> (c: Color)
        ensures
            c == (Color { r, g, b, a }),
    {
        Color { r, g, b, a }
    }

    /// The channels as a tuple, in `(r, g, b, a)` order.
    pub fn rgba(&self) -> (t: (u8, u8, u8, u8))
        ensures
            t == (self.r, self.g, self.b, self.a),
    {
        (self.r, self.g, self.b, self.a)
    }
}

/// The four bytes a raster pass emits for `c` under channel order `o`.
pub open spec fn spec_color_bytes(c: Color, o: ChannelOrder) -> Seq<u8> {
    match o {
        ChannelOrder::Rgba => seq![c.r, c.g, c.b, c.a],
        ChannelOrder::Abgr => seq![c.a, c.b, c.g, c.r],
    }
}

/// The color read back from four raw bytes under channel order `o`.
pub open spec fn spec_color_from_bytes(bytes: Seq<u8>, o: ChannelOrder) -> Color
    recommends
        bytes.len() == 4,
{
    match o {
        ChannelOrder::Rgba => Color { r: bytes[0], g: bytes[1], b: bytes[2], a: bytes[3] },
        ChannelOrder::Abgr => Color { r: bytes[3], g: bytes[2], b: bytes[1], a: bytes[0] },
    }
}

/// Serialize one color to its four raster bytes.
pub fn color_to_bytes(c: Color, o: ChannelOrder) -> (bytes: [u8; 4])
    ensures
        bytes@ == spec_color_bytes(c, o),
{
    match o {
        ChannelOrder::Rgba => [c.r, c.g, c.b, c.a],
        ChannelOrder::Abgr => [c.a, c.b, c.g, c.r],
    }
}

/// Read one color back from its four raster bytes.
pub fn color_from_bytes(bytes: &[u8; 4], o: ChannelOrder) -> (c: Color)
    ensures
        c == spec_color_from_bytes(bytes@, o),
{
    match o {
        ChannelOrder::Rgba => Color { r: bytes[0], g: bytes[1], b: bytes[2], a: bytes[3] },
        ChannelOrder::Abgr => Color { r: bytes[3], g: bytes[2], b: bytes[1], a: bytes[0] },
    }
}

/// Law: writing a color to raster bytes and reading them back recovers the
/// color, under either channel order.
pub proof fn lemma_color_round_trip(c: Color, o: ChannelOrder)
    ensures
        spec_color_from_bytes(spec_color_bytes(c, o), o) == c,
{
}

} // verus!
