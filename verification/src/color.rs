//! Colours as packed 32-bit RGBA words, and their channels.

use vstd::prelude::*;

verus! {

/// The low eight bits of a word.
pub open spec fn low_byte(word: u32) -> u8 {
    (word & 0xff) as u8
}

/// The red channel of a packed RGBA word: bits 31 to 24.
pub open spec fn red_of(rgba: u32) -> u8 {
    low_byte(rgba >> 24)
}

/// The green channel of a packed RGBA word: bits 23 to 16.
pub open spec fn green_of(rgba: u32) -> u8 {
    low_byte(rgba >> 16)
}

/// The blue channel of a packed RGBA word: bits 15 to 8.
pub open spec fn blue_of(rgba: u32) -> u8 {
    low_byte(rgba >> 8)
}

/// The alpha channel of a packed RGBA word: bits 7 to 0.
pub open spec fn alpha_of(rgba: u32) -> u8 {
    low_byte(rgba)
}

/// The word that packs four channels as RGBA, red highest.
pub open spec fn pack_rgba(r: u8, g: u8, b: u8, a: u8) -> u32 {
    ((r as u32) << 24) | ((g as u32) << 16) | ((b as u32) << 8) | (a as u32)
}

/// The word that packs four channels as ARGB, alpha highest.
pub open spec fn pack_argb(a: u8, r: u8, g: u8, b: u8) -> u32 {
    ((a as u32) << 24) | ((r as u32) << 16) | ((g as u32) << 8) | (b as u32)
}

/// The low eight bits of `byte`.
pub fn byte_to_byte(byte: u32) -> (out: u8)
    ensures
        out == low_byte(byte),
        out as int == byte as int % 256,
{
    assert(byte & 255 < 256) by (bit_vector);
    assert(byte & 255 == byte % 256) by (bit_vector);
    (byte & 255) as u8
}

/// The four channels of a colour, each a numerator over `CHANNEL_MAX`.
#[derive(Clone, Copy, Debug, PartialEq, Eq, Structural)]
pub struct Channels {
    pub r: u8,
    pub g: u8,
    pub b: u8,
    pub a: u8,
}

/// The value of a channel that stands for the fraction one.
pub const CHANNEL_MAX: u8 = 255;

/// A colour: four 8-bit channels packed as RGBA, alpha in the low byte.
#[derive(Clone, Copy, Debug, PartialEq, Eq, Structural)]
pub struct Color {
    pub rgba: u32,
}

impl Color {
    /// The channels of this colour.
    pub open spec fn channels_spec(self) -> Channels {
        Channels {
            r: red_of(self.rgba),
            g: green_of(self.rgba),
            b: blue_of(self.rgba),
            a: alpha_of(self.rgba),
        }
    }

    /// This colour as an ARGB word.
    pub open spec fn argb_spec(self) -> u32 {
        pack_argb(alpha_of(self.rgba), red_of(self.rgba), green_of(self.rgba), blue_of(self.rgba))
    }

    /// The colour with the given packed RGBA word.
    pub fn from_rgba32_u32(rgba: u32) -> (c: Color)
        ensures
            c.rgba == rgba,
    {
        Color { rgba }
    }

    /// The colour with the given channels.
    pub fn rgba8(r: u8, g: u8, b: u8, a: u8) -> (c: Color)
        ensures
            c.rgba == pack_rgba(r, g, b, a),
            c.channels_spec() == (Channels { r, g, b, a }),
    {
        proof {
            lemma_pack_channels(r, g, b, a);
        }
        Color { rgba: ((r as u32) << 24) | ((g as u32) << 16) | ((b as u32) << 8) | (a as u32) }
    }

    /// The opaque colour with the given channels.
    pub fn rgb8(r: u8, g: u8, b: u8) -> (c: Color)
        ensures
            c.rgba == pack_rgba(r, g, b, CHANNEL_MAX),
            c.channels_spec() == (Channels { r, g, b, a: CHANNEL_MAX }),
    {
        Color::rgba8(r, g, b, CHANNEL_MAX)
    }

    /// The packed RGBA word of this colour.
    pub fn as_rgba_u32(&self) -> (rgba: u32)
        ensures
            rgba == self.rgba,
    {
        self.rgba
    }

    /// The four channels, red from bits 31 to 24 down to alpha from bits 7 to 0.
    #[verifier::when_used_as_spec(channels_spec)]
    pub fn channels(self) -> (ch: Channels)
        ensures
            ch == self.channels_spec(),
    {
        Channels {
            r: byte_to_byte(self.rgba >> 24),
            g: byte_to_byte(self.rgba >> 16),
            b: byte_to_byte(self.rgba >> 8),
            a: byte_to_byte(self.rgba),
        }
    }

    /// The colour as an ARGB word: alpha in bits 31 to 24, then red, green
    /// and blue.
    #[verifier::when_used_as_spec(argb_spec)]
    pub fn to_argb(self) -> (argb: u32)
        ensures
            argb == self.argb_spec(),
    {
        let ch = self.channels();
        ((ch.a as u32) << 24) | ((ch.r as u32) << 16) | ((ch.g as u32) << 8) | (ch.b as u32)
    }
}

/// Packing four channels and reading them back gives the same channels.
pub proof fn lemma_pack_channels(r: u8, g: u8, b: u8, a: u8)
    ensures
        red_of(pack_rgba(r, g, b, a)) == r,
        green_of(pack_rgba(r, g, b, a)) == g,
        blue_of(pack_rgba(r, g, b, a)) == b,
        alpha_of(pack_rgba(r, g, b, a)) == a,
{
    let w = pack_rgba(r, g, b, a);
    assert(((((r as u32) << 24) | ((g as u32) << 16) | ((b as u32) << 8) | (a as u32)) >> 24)
        & 0xff == r as u32) by (bit_vector);
    assert(((((r as u32) << 24) | ((g as u32) << 16) | ((b as u32) << 8) | (a as u32)) >> 16)
        & 0xff == g as u32) by (bit_vector);
    assert(((((r as u32) << 24) | ((g as u32) << 16) | ((b as u32) << 8) | (a as u32)) >> 8)
        & 0xff == b as u32) by (bit_vector);
    assert((((r as u32) << 24) | ((g as u32) << 16) | ((b as u32) << 8) | (a as u32)) & 0xff
        == a as u32) by (bit_vector);
}

} // verus!
