//! Palette colours and the 256-colour screen of the raycasting demos.
//!
//! A colour is one byte: the high nibble picks a row of the palette (a hue
//! and saturation), the low nibble the brightness within that row.

use crate::rcl::units::{spec_wrap, RCL_Unit, RCL_wrap, RCL_UNITS_PER_SQUARE};
use vstd::prelude::*;

verus! {

/// Columns of the screen.
pub const SCREEN_WIDTH: u8 = 110;

/// Rows of the screen.
pub const SCREEN_HEIGHT: u8 = 88;

pub const MIDDLE_ROW: u8 = 44;

pub const MIDDLE_COLUMN: u8 = 55;

/// Columns that one rendered column fills.
pub const SUBSAMPLE: u8 = 2;

pub const SUBSAMPLED_WIDTH: u8 = 55;

pub const TEXTURE_W: u8 = 32;

pub const TEXTURE_H: u8 = 32;

/// Transparent colour for sprites and GUI.
pub const TRANSPARENT_COLOR: u8 = 0x8f;

pub const PLAYER_SPEED: RCL_Unit = 128;

pub const PLAYER_ROTATION_SPEED: RCL_Unit = 16;

pub const PLAYER_JUMP_SPEED: RCL_Unit = 500;

pub const HEAD_BOB_HEIGHT: RCL_Unit = 100;

pub const HEAD_BOB_STEP: u8 = 10;

pub const GRAVITY_ACCELERATION: RCL_Unit = 48;

/// Gives the middle colour of the given hue (0 to 15).
#[allow(non_snake_case)]
pub fn HUE(c: u8) -> (colour: u8)
    requires
        c <= 15,
    ensures
        colour == c * 16 + 8,
{
    c * 16 + 8
}

/// The palette row of a colour.
pub open spec fn spec_row(colour: u8) -> int {
    colour as int / 16
}

/// The brightest colour of the row of `colour`.
pub open spec fn spec_row_top(colour: u8) -> u8 {
    (spec_row(colour) * 16 + 15) as u8
}

/// `colour` with `add` added to its brightness: the sum modulo 256 where
/// that stays in the row of `colour`, else the top of the row for a positive
/// `add` and black for any other.
pub open spec fn spec_add_intensity(colour: u8, add: i8) -> u8 {
    let shifted = colour.wrapping_add_signed(add);
    if spec_row(shifted) == spec_row(colour) {
        shifted
    } else if add > 0 {
        spec_row_top(colour)
    } else {
        0
    }
}

proof fn lemma_nibbles(colour: u8)
    ensures
        (colour >> 4) as int == spec_row(colour),
        colour | 0x0f == spec_row_top(colour),
{
    assert((colour >> 4) == colour / 16) by (bit_vector);
    assert((colour | 0x0f) == (colour / 16) * 16 + 15) by (bit_vector);
}

/// Adds the given intensity to a colour, staying within its palette row.
#[allow(non_snake_case)]
pub fn addIntensity(color: u8, add: i8) -> (r: u8)
    ensures
        r == spec_add_intensity(color, add),
{
    let new_value: u8 = color.wrapping_add_signed(add);
    proof {
        lemma_nibbles(color);
        lemma_nibbles(new_value);
    }
    if (new_value >> 4) == (color >> 4) {
        new_value
    } else if add > 0 {
        color | 0x0f
    } else {
        0
    }
}

/// Brightens a colour by `plus`; leaving the row gives the top of the row.
#[allow(non_snake_case)]
pub fn plusIntensity(color: u8, plus: u8) -> (r: u8)
    ensures
        r == if spec_row(color.wrapping_add(plus)) == spec_row(color) {
            color.wrapping_add(plus)
        } else {
            spec_row_top(color)
        },
{
    let new_value: u8 = color.wrapping_add(plus);
    proof {
        lemma_nibbles(color);
        lemma_nibbles(new_value);
    }
    if (new_value >> 4) == (color >> 4) {
        new_value
    } else {
        color | 0x0f
    }
}

/// Darkens a colour by `minus`; leaving the row gives black.
#[allow(non_snake_case)]
pub fn minusIntensity(color: u8, minus: u8) -> (r: u8)
    ensures
        r == if spec_row(color.wrapping_sub(minus)) == spec_row(color) {
            color.wrapping_sub(minus)
        } else {
            0
        },
{
    let new_value: u8 = color.wrapping_sub(minus);
    proof {
        lemma_nibbles(color);
        lemma_nibbles(new_value);
    }
    if (new_value >> 4) == (color >> 4) {
        new_value
    } else {
        0
    }
}

/// Writes `color` to the `SUBSAMPLE` columns that the rendered column `x`
/// of row `y` fills.
#[allow(non_snake_case)]
pub fn putSubsampledPixel(screenbuffer: &mut Vec<u8>, x: u8, y: u8, color: u8)
    requires
        y * 110 + x * 2 + 1 < old(screenbuffer).len(),
    ensures
        final(screenbuffer)@ == old(screenbuffer)@.update(y * 110 + x * 2, color).update(
            y * 110 + x * 2 + 1,
            color,
        ),
{
    let offset: usize = y as usize * SCREEN_WIDTH as usize + x as usize * SUBSAMPLE as usize;
    let mut i: usize = 0;
    while i < SUBSAMPLE as usize
        invariant
            i <= 2,
            offset == y * 110 + x * 2,
            offset + 1 < screenbuffer.len(),
            screenbuffer.len() == old(screenbuffer).len(),
            i == 0 ==> screenbuffer@ == old(screenbuffer)@,
            i == 1 ==> screenbuffer@ == old(screenbuffer)@.update(offset as int, color),
            i == 2 ==> screenbuffer@ == old(screenbuffer)@.update(offset as int, color).update(
                offset + 1,
                color,
            ),
        decreases 2 - i,
    {
        screenbuffer[offset + i] = color;
        i += 1;
    }
}

/// The palette byte of a colour given by hue, saturation and value. A value
/// below 16 is black; a saturation below 85 is a grey, with the value in
/// the low nibble; every other colour holds the saturation in the highest
/// bit, the hue in the three bits below it and the value in the low nibble.
pub open spec fn spec_encode_hsv(hue: u8, saturation: u8, value: u8) -> u8 {
    if value > 15 {
        if saturation > 84 {
            ((((saturation / 85) - 1) as u8) << 7u8) | ((hue / 32) << 4u8) | (((value - 16)
                / 15) as u8)
        } else {
            value / 16
        }
    } else {
        0
    }
}

#[allow(non_snake_case)]
pub fn encodeHSV(hue: u8, saturation: u8, value: u8) -> (r: u8)
    ensures
        r == spec_encode_hsv(hue, saturation, value),
{
    if value > 15 {
        if saturation > 84 {
            ((saturation / 85 - 1) << 7) | ((hue / 32) << 4) | ((value - 16) / 15)
        } else {
            value / 16
        }
    } else {
        0
    }
}

/// Hue, saturation and value of a palette byte.
pub open spec fn spec_decode_hsv(hsv: u8) -> (u8, u8, u8) {
    let bottom = hsv % 16;
    if hsv / 16 != 0 {
        (
            (((hsv / 16) % 8) * 32) as u8,
            ((1 + hsv / 128) * 127) as u8,
            if bottom != 15 {
                ((bottom + 1) * 16) as u8
            } else {
                255u8
            },
        )
    } else {
        (0, 0, (bottom * 17) as u8)
    }
}

#[allow(non_snake_case)]
pub fn decodeHSV(hsv: u8) -> (r: (u8, u8, u8))
    ensures
        r == spec_decode_hsv(hsv),
{
    let topHalf: u8 = hsv & 0b11110000;
    let bottomHalf: u8 = hsv & 0b00001111;
    let sat_bit: u8 = (hsv & 0b10000000) >> 7;
    let hue_bits: u8 = (hsv & 0b01110000) >> 4;
    assert(hsv & 0b11110000 == (hsv / 16) * 16) by (bit_vector);
    assert(hsv & 0b00001111 == hsv % 16) by (bit_vector);
    assert((hsv & 0b10000000) >> 7 == hsv / 128) by (bit_vector);
    assert((hsv & 0b01110000) >> 4 == (hsv / 16) % 8) by (bit_vector);

    if topHalf != 0 {
        let value: u8 = if bottomHalf != 15 {
            (bottomHalf + 1) * 16
        } else {
            255
        };
        let saturation: u8 = (1 + sat_bit) * 127;
        let hue: u8 = hue_bits * 32;
        (hue, saturation, value)
    } else {
        (0, 0, bottomHalf * 17)
    }
}

/// How strongly a colour is coloured: value times saturation over 256.
pub open spec fn spec_chroma(saturation: u8, value: u8) -> int {
    (value as int * saturation as int) / 256
}

/// The hue in sixteenths of a sixth of the colour circle.
pub open spec fn spec_hue_step(hue: u8) -> int {
    (hue as int * 16) / 42
}

/// The second strongest channel of a colour.
pub open spec fn spec_hue_mix(hue: u8, saturation: u8, value: u8) -> int {
    let h = spec_hue_step(hue);
    let a = if h % 32 - 16 < 0 {
        16 - h % 32
    } else {
        h % 32 - 16
    };
    (spec_chroma(saturation, value) * (16 - a)) / 16
}

/// Red, green and blue of a colour given by hue, saturation and value.
pub open spec fn spec_hsv_to_rgb(hue: u8, saturation: u8, value: u8) -> (u8, u8, u8) {
    let c = spec_chroma(saturation, value);
    let x = spec_hue_mix(hue, saturation, value);
    let h = spec_hue_step(hue);
    let m = value - c;
    if h <= 16 {
        ((c + m) as u8, (x + m) as u8, m as u8)
    } else if h <= 32 {
        ((x + m) as u8, (c + m) as u8, m as u8)
    } else if h <= 48 {
        (m as u8, (c + m) as u8, (x + m) as u8)
    } else if h <= 64 {
        (m as u8, (x + m) as u8, (c + m) as u8)
    } else if h <= 80 {
        ((x + m) as u8, m as u8, (c + m) as u8)
    } else if h <= 96 {
        ((c + m) as u8, m as u8, (x + m) as u8)
    } else {
        (m as u8, m as u8, m as u8)
    }
}

#[allow(non_snake_case)]
pub fn convertHSVtoRGB(hue: u8, saturation: u8, value: u8) -> (rgb: (u8, u8, u8))
    ensures
        rgb == spec_hsv_to_rgb(hue, saturation, value),
{
    assert(0 <= value * saturation <= 255 * 255) by (nonlinear_arith)
        requires
            0 <= value <= 255,
            0 <= saturation <= 255,
    ;
    let chroma: u16 = (value as u16 * saturation as u16) / 256;
    assert(chroma <= value) by (nonlinear_arith)
        requires
            chroma == (value as int * saturation as int) / 256,
            saturation <= 255,
            value >= 0,
    ;

    let h: u8 = ((hue as u16 * 16) / 42) as u8;

    let folded: i16 = (h % 32) as i16 - 16;
    let a: i16 = if folded < 0 {
        -folded
    } else {
        folded
    };

    assert(0 <= chroma * (16 - a) <= chroma * 16) by (nonlinear_arith)
        requires
            0 <= a <= 16,
            0 <= chroma,
    ;
    let x: i16 = (chroma as i16 * (16 - a)) / 16;

    let mut r: i16 = 0;
    let mut g: i16 = 0;
    let mut b: i16 = 0;

    if h <= 16 {
        r = chroma as i16;
        g = x;
    } else if h <= 32 {
        r = x;
        g = chroma as i16;
    } else if h <= 48 {
        g = chroma as i16;
        b = x;
    } else if h <= 64 {
        g = x;
        b = chroma as i16;
    } else if h <= 80 {
        r = x;
        b = chroma as i16;
    } else if h <= 96 {
        r = chroma as i16;
        b = x;
    }
    let m: i16 = value as i16 - chroma as i16;

    ((r + m) as u8, (g + m) as u8, (b + m) as u8)
}

/// Red, green and blue of the palette entry `i`.
pub open spec fn spec_palette_entry(i: u8) -> [u8; 3] {
    let hsv = spec_decode_hsv(i);
    let rgb = spec_hsv_to_rgb(hsv.0, hsv.1, hsv.2);
    [rgb.0, rgb.1, rgb.2]
}

/// Builds the palette of 256 colours. The palette is laid out by hue,
/// saturation and value, so that brightness can be added to a colour by
/// adding to its byte.
#[allow(non_snake_case)]
pub fn initPalette() -> (palette: [[u8; 3]; 256])
    ensures
        forall|i: int| 0 <= i < 256 ==> palette[i] == spec_palette_entry(i as u8),
{
    let mut palette: [[u8; 3]; 256] = [[0;3];256];
    let mut i: usize = 0;
    while i < 256
        invariant
            i <= 256,
            forall|k: int| 0 <= k < i ==> palette[k] == spec_palette_entry(k as u8),
        decreases 256 - i,
    {
        let (h, s, v) = decodeHSV(i as u8);
        let (r, g, b) = convertHSVtoRGB(h, s, v);
        palette[i] = [r, g, b];
        i += 1;
    }
    palette
}

/// The texel of an image of 32 by 32 pixels at the coordinates `(x, y)`,
/// each wrapped into `[0, RCL_UNITS_PER_SQUARE)`. The pixels follow the two
/// bytes of the image's header, column after column.
pub open spec fn spec_sample_image(image: Seq<u8>, x: RCL_Unit, y: RCL_Unit) -> u8 {
    image[2 + spec_wrap(x, RCL_UNITS_PER_SQUARE) * 32 + spec_wrap(y, RCL_UNITS_PER_SQUARE)]
}

/// Samples an image by normalized coordinates.
#[allow(non_snake_case)]
pub fn sampleImage(image: &[u8], x: RCL_Unit, y: RCL_Unit) -> (c: u8)
    requires
        image@.len() >= 2 + 32 * 32,
    ensures
        c == spec_sample_image(image@, x, y),
{
    let x = RCL_wrap(x, RCL_UNITS_PER_SQUARE);
    let y = RCL_wrap(y, RCL_UNITS_PER_SQUARE);

    let index: i32 = (x / (RCL_UNITS_PER_SQUARE / TEXTURE_W as i32)) * TEXTURE_H as i32 + (y / (
    RCL_UNITS_PER_SQUARE / TEXTURE_W as i32));

    image[2 + index as usize]
}

} // verus!
