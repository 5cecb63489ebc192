//! RGB565 colors, modelled by their 16-bit storage word.
use embedded_graphics::pixelcolor::raw::RawU16;
use embedded_graphics::pixelcolor::{IntoStorage, Rgb565, RgbColor};
use vstd::prelude::*;

verus! {

/// The storage word that `Rgb565::new(r, g, b)` produces: every channel is
/// cut to its width (5, 6 and 5 bits) and the channels are packed red-high.
pub open spec fn rgb565_pack(r: u8, g: u8, b: u8) -> u16 {
    ((((r & 31u8) as u16) << 11u16) | (((g & 63u8) as u16) << 5u16) | ((b & 31u8) as u16)) as u16
}

/// Red channel (5 bits) of a storage word.
pub open spec fn red_of(s: u16) -> u8 {
    ((s >> 11u16) & 31u16) as u8
}

/// Green channel (6 bits) of a storage word.
pub open spec fn green_of(s: u16) -> u8 {
    ((s >> 5u16) & 63u16) as u8
}

/// Blue channel (5 bits) of a storage word.
pub open spec fn blue_of(s: u16) -> u8 {
    (s & 31u16) as u8
}

/// Calls `Rgb565::new` and `IntoStorage::into_storage` of embedded-graphics.
/// Claimed: the word packs the masked channels as `rgb565_pack` says, which
/// is what embedded-graphics-core's `new` computes.
#[verifier::external_body]
fn rgb565_storage_of(r: u8, g: u8, b: u8) -> (s: u16)
    ensures
        s == rgb565_pack(r, g, b),
{
    Rgb565::new(r, g, b).into_storage()
}

/// Calls `RgbColor::r` on the `Rgb565` made from the raw word `s`.
/// Claimed: the result is bits 11..16 of `s`.
#[verifier::external_body]
fn rgb565_red(s: u16) -> (r: u8)
    ensures
        r == red_of(s),
{
    Rgb565::from(RawU16::new(s)).r()
}

/// Calls `RgbColor::g` on the `Rgb565` made from the raw word `s`.
/// Claimed: the result is bits 5..11 of `s`.
#[verifier::external_body]
fn rgb565_green(s: u16) -> (g: u8)
    ensures
        g == green_of(s),
{
    Rgb565::from(RawU16::new(s)).g()
}

/// Calls `RgbColor::b` on the `Rgb565` made from the raw word `s`.
/// Claimed: the result is bits 0..5 of `s`.
#[verifier::external_body]
fn rgb565_blue(s: u16) -> (b: u8)
    ensures
        b == blue_of(s),
{
    Rgb565::from(RawU16::new(s)).b()
}

/// An RGB565 color, held as the 16-bit word that embedded-graphics stores for it.
#[derive(Clone, Copy, PartialEq, Eq, Structural, Debug)]
pub struct Color565 {
    raw: u16,
}

impl View for Color565 {
    type V = u16;

    closed spec fn view(&self) -> u16 {
        self.raw
    }
}

impl Color565 {
    /// The color with the given channels; too large channel values lose their
    /// unused high bits.
    pub fn new(r: u8, g: u8, b: u8) -> (c: Self)
        ensures
            c@ == rgb565_pack(r, g, b),
    {
        Color565 { raw: rgb565_storage_of(r, g, b) }
    }

    /// Black: all channels zero.
    pub fn black() -> (c: Self)
        ensures
            c@ == 0,
    {
        let c = Self::new(0, 0, 0);
        assert(rgb565_pack(0, 0, 0) == 0) by (bit_vector);
        c
    }

    /// The color whose storage word is `raw`.
    pub fn from_storage(raw: u16) -> (c: Self)
        ensures
            c@ == raw,
    {
        Color565 { raw }
    }

    /// The storage word of this color.
    pub fn storage(&self) -> (s: u16)
        ensures
            s == self@,
    {
        self.raw
    }

    /// The red channel, `0..32`.
    pub fn r(&self) -> (r: u8)
        ensures
            r == red_of(self@),
            r < 32,
    {
        let r = rgb565_red(self.raw);
        proof { lemma_channel_ranges(self.raw); }
        r
    }

    /// The green channel, `0..64`.
    pub fn g(&self) -> (g: u8)
        ensures
            g == green_of(self@),
            g < 64,
    {
        let g = rgb565_green(self.raw);
        proof { lemma_channel_ranges(self.raw); }
        g
    }

    /// The blue channel, `0..32`.
    pub fn b(&self) -> (b: u8)
        ensures
            b == blue_of(self@),
            b < 32,
    {
        let b = rgb565_blue(self.raw);
        proof { lemma_channel_ranges(self.raw); }
        b
    }
}

/// Every channel read from a storage word lies within its width.
pub proof fn lemma_channel_ranges(s: u16)
    ensures
        red_of(s) < 32,
        green_of(s) < 64,
        blue_of(s) < 32,
{
    assert(((s >> 11u16) & 31u16) < 32) by (bit_vector);
    assert(((s >> 5u16) & 63u16) < 64) by (bit_vector);
    assert((s & 31u16) < 32) by (bit_vector);
}

/// Reading the channels of a packed color gives back the channels, each cut
/// to its width.
pub proof fn lemma_channels_of_pack(r: u8, g: u8, b: u8)
    ensures
        red_of(rgb565_pack(r, g, b)) == r & 31u8,
        green_of(rgb565_pack(r, g, b)) == g & 63u8,
        blue_of(rgb565_pack(r, g, b)) == b & 31u8,
{
    assert(((((((r & 31u8) as u16) << 11u16) | (((g & 63u8) as u16) << 5u16) | ((b & 31u8) as u16)) as u16 >> 11u16) & 31u16) as u8 == r & 31u8) by (bit_vector);
    assert(((((((r & 31u8) as u16) << 11u16) | (((g & 63u8) as u16) << 5u16) | ((b & 31u8) as u16)) as u16 >> 5u16) & 63u16) as u8 == g & 63u8) by (bit_vector);
    assert((((((r & 31u8) as u16) << 11u16) | (((g & 63u8) as u16) << 5u16) | ((b & 31u8) as u16)) as u16 & 31u16) as u8 == b & 31u8) by (bit_vector);
}

/// Packing the channels read from a storage word gives the word back: every
/// 16-bit word is exactly one color.
pub proof fn lemma_pack_of_channels(s: u16)
    ensures
        rgb565_pack(red_of(s), green_of(s), blue_of(s)) == s,
{
    assert(((((((((s >> 11u16) & 31u16) as u8) & 31u8) as u16) << 11u16) | (((((s >> 5u16) & 63u16) as u8 & 63u8) as u16) << 5u16) | ((((s & 31u16) as u8) & 31u8) as u16)) as u16) == s) by (bit_vector);
}

} // verus!
