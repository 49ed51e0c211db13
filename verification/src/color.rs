//! Pixel colours.

use vstd::prelude::*;

verus! {

/// An opaque colour, one byte per channel.
#[allow(clippy::upper_case_acronyms)]
#[derive(Copy, Clone, Debug, PartialEq, Eq, Structural)]
pub struct RGB {
    pub r: u8,
    pub g: u8,
    pub b: u8,
}

/// A colour with an alpha channel, one byte per channel.
#[allow(clippy::upper_case_acronyms)]
#[derive(Copy, Clone, Debug, PartialEq, Eq, Structural)]
pub struct RGBA {
    pub r: u8,
    pub g: u8,
    pub b: u8,
    pub a: u8,
}

/// The channels of an opaque colour packed as `0x00RRGGBB`.
pub open spec fn spec_pack_rgb(r: u8, g: u8, b: u8) -> int {
    r as int * 0x1_0000 + g as int * 0x100 + b as int
}

impl RGB {
    pub fn rgb(r: u8, g: u8, b: u8) -> (c: RGB)
        ensures
            c == (RGB { r, g, b }),
    {
        RGB { r, g, b }
    }

    pub fn black() -> (c: RGB)
        ensures
            c == (RGB { r: 0, g: 0, b: 0 }),
    {
        RGB { r: 0, g: 0, b: 0 }
    }

    pub fn zeroed() -> (c: RGB)
        ensures
            c == (RGB { r: 0, g: 0, b: 0 }),
    {
        RGB::rgb(0, 0, 0)
    }
}

impl RGBA {
    pub fn rgba(r: u8, g: u8, b: u8, a: u8) -> (c: RGBA)
        ensures
            c == (RGBA { r, g, b, a }),
    {
        RGBA { r, g, b, a }
    }

    pub fn zeroed() -> (c: RGBA)
        ensures
            c == (RGBA { r: 0, g: 0, b: 0, a: 0 }),
    {
        RGBA::rgba(0, 0, 0, 0)
    }

    /// The colour without its alpha channel.
    pub open spec fn spec_rgb(self) -> RGB {
        RGB { r: self.r, g: self.g, b: self.b }
    }

    /// Packs the colour channels as `0x00RRGGBB`; alpha is dropped.
    pub fn to_rgb32(self) -> (packed: u32)
        ensures
            packed == spec_pack_rgb(self.r, self.g, self.b),
    {
        let r: u32 = self.r as u32;
        let g: u32 = self.g as u32;
        let b: u32 = self.b as u32;
        assert(((r << 16) | (g << 8) | b) == r * 0x1_0000 + g * 0x100 + b) by (bit_vector)
            requires
                r < 0x100,
                g < 0x100,
                b < 0x100,
        ;
        (r << 16) | (g << 8) | b
    }

    /// Whether all four channels are zero.
    pub fn is_zero(&self) -> (zero: bool)
        ensures
            zero <==> *self == (RGBA { r: 0, g: 0, b: 0, a: 0 }),
    {
        self.r == 0 && self.g == 0 && self.b == 0 && self.a == 0
    }
}

/// Packs every pixel of `from` as `0x00RRGGBB` into the entry of `to` at the
/// same index. Where the two differ in length, the entries that both have
/// are converted and the rest of `to` is kept.
pub fn convert_to_rgb(from: &Vec<RGBA>, to: &mut Vec<u32>)
    ensures
        final(to)@.len() == old(to)@.len(),
        forall|i: int|
            0 <= i < final(to)@.len() ==> final(to)@[i] == if i < from@.len() {
                spec_pack_rgb(from@[i].r, from@[i].g, from@[i].b) as u32
            } else {
                old(to)@[i]
            },
{
    let n: usize = if from.len() < to.len() {
        from.len()
    } else {
        to.len()
    };
    let mut i: usize = 0;
    while i < n
        invariant
            i <= n,
            n <= from@.len(),
            n <= to@.len(),
            to@.len() == old(to)@.len(),
            forall|k: int|
                0 <= k < to@.len() ==> to@[k] == if k < i {
                    spec_pack_rgb(from@[k].r, from@[k].g, from@[k].b) as u32
                } else {
                    old(to)@[k]
                },
        decreases n - i,
    {
        to[i] = from[i].to_rgb32();
        i += 1;
    }
}

} // verus!
