//! The 256-colour screen of the raycasting demos, and what is drawn onto it
//! besides the walls: images and scaled sprites.

use crate::rcl::general::{
    addIntensity, decodeHSV, encodeHSV, initPalette, spec_add_intensity, spec_decode_hsv,
    spec_encode_hsv, spec_palette_entry, TRANSPARENT_COLOR,
};
use crate::rcl::types::RCL_RayConstraints;
use crate::rcl::units::RCL_Unit;
use vstd::prelude::*;

verus! {

/// A screen of 110 by 88 palette colours.
#[derive(Debug)]
pub struct Screen {
    pub pallete: [[u8; 3]; 256],
    /// One palette byte per pixel, row after row.
    pub data: Vec<u8>,
}

impl Screen {
    /// The screen has a byte for every pixel and holds the palette.
    pub open spec fn wf(&self) -> bool {
        &&& self.data.len() == 110 * 88
        &&& forall|i: int| 0 <= i < 256 ==> self.pallete[i] == spec_palette_entry(i as u8)
    }

    /// A black screen with the palette.
    pub fn new() -> (s: Screen)
        ensures
            s.wf(),
            forall|i: int| 0 <= i < 110 * 88 ==> s.data@[i] == 0,
    {
        let mut data: Vec<u8> = Vec::new();
        let mut i: usize = 0;
        while i < 110 * 88
            invariant
                i <= 110 * 88,
                data.len() == i,
                forall|k: int| 0 <= k < i ==> data@[k] == 0,
            decreases 110 * 88 - i,
        {
            data.push(0);
            i += 1;
        }
        Screen { pallete: initPalette(), data }
    }

    /// The pixel bytes after the pixel in column `x` of row `y` has been set
    /// to `color`. A position outside of the screen changes nothing.
    pub open spec fn spec_draw_pixel(data: Seq<u8>, x: int, y: int, color: u8) -> Seq<u8> {
        if 0 <= x < 110 && 0 <= y < 88 {
            data.update(y * 110 + x, color)
        } else {
            data
        }
    }

    #[allow(non_snake_case)]
    pub fn drawPixel(&mut self, x: i16, y: i16, color: u8)
        requires
            old(self).wf(),
        ensures
            final(self).wf(),
            final(self).pallete == old(self).pallete,
            final(self).data@ == Self::spec_draw_pixel(old(self).data@, x as int, y as int, color),
    {
        if x >= 0 && x < 110 && y >= 0 && y < 88 {
            self.data[y as usize * 110 + x as usize] = color;
        }
    }

    /// Byte `i` of the image that shows the screen: red, green and blue of
    /// the pixel's palette entry, then 255.
    pub open spec fn spec_projected_byte(&self, i: int) -> u8 {
        if i % 4 == 3 {
            255
        } else {
            self.pallete[self.data@[i / 4] as int][i % 4]
        }
    }

    /// Writes the screen as RGBA to the start of `image`. What follows the
    /// screen's bytes in `image` is kept.
    pub fn project(&self, image: &mut Vec<u8>)
        requires
            self.wf(),
            old(image).len() >= 110 * 88 * 4,
        ensures
            final(image)@.len() == old(image)@.len(),
            forall|i: int|
                0 <= i < final(image)@.len() ==> final(image)@[i] == if i < 110 * 88 * 4 {
                    self.spec_projected_byte(i)
                } else {
                    old(image)@[i]
                },
    {
        let mut p: usize = 0;
        while p < 110 * 88
            invariant
                p <= 110 * 88,
                self.wf(),
                image.len() == old(image).len(),
                image.len() >= 110 * 88 * 4,
                forall|i: int|
                    0 <= i < image@.len() ==> image@[i] == if i < 4 * p {
                        self.spec_projected_byte(i)
                    } else {
                        old(image)@[i]
                    },
            decreases 110 * 88 - p,
        {
            let c: [u8; 3] = self.pallete[self.data[p] as usize];
            let offset: usize = p * 4;
            image[offset] = c[0];
            image[offset + 1] = c[1];
            image[offset + 2] = c[2];
            image[offset + 3] = 255;
            p += 1;
        }
    }
}

/// The colour that the image `image` shows at the screen position
/// `(px, py)` when its corner is put at `(x, y)`, if any. An image holds
/// its width, its height and then its pixels, column after column.
pub open spec fn spec_image_pixel(image: Seq<u8>, x: int, y: int, px: int, py: int) -> Option<u8> {
    let i = px - x;
    let j = py - y;
    if 0 <= i < image[0] && 0 <= j < image[1] && image[2 + i * image[1] + j] != TRANSPARENT_COLOR {
        Some(image[2 + i * image[1] + j])
    } else {
        None
    }
}

/// Draws an image at full size with its corner at `(x, y)`. Pixels of the
/// transparent colour are left out.
#[allow(non_snake_case)]
pub fn drawImage(screen: &mut Screen, image: &[u8], x: u8, y: u8)
    requires
        old(screen).wf(),
        image.len() >= 2,
        image.len() >= 2 + image@[0] * image@[1],
    ensures
        final(screen).wf(),
        final(screen).pallete == old(screen).pallete,
        forall|px: int, py: int|
            0 <= px < 110 && 0 <= py < 88 ==> #[trigger] final(screen).data@[py * 110 + px]
                == match spec_image_pixel(image@, x as int, y as int, px, py) {
                Some(c) => c,
                None => old(screen).data@[py * 110 + px],
            },
{
    let w: usize = image[0] as usize;
    let h: usize = image[1] as usize;
    let mut i: usize = 0;
    while i < w
        invariant
            i <= w,
            w == image@[0],
            h == image@[1],
            image.len() >= 2 + w * h,
            screen.wf(),
            screen.pallete == old(screen).pallete,
            forall|px: int, py: int|
                0 <= px < 110 && 0 <= py < 88 ==> #[trigger] screen.data@[py * 110 + px] == if px
                    - x < i {
                    match spec_image_pixel(image@, x as int, y as int, px, py) {
                        Some(c) => c,
                        None => old(screen).data@[py * 110 + px],
                    }
                } else {
                    old(screen).data@[py * 110 + px]
                },
        decreases w - i,
    {
        let xPos: i16 = x as i16 + i as i16;
        assert(0 <= i * h && i * h + h <= w * h) by (nonlinear_arith)
            requires
                0 <= i < w,
                0 <= h,
        ;
        let column: usize = 2 + i * h;
        let mut j: usize = 0;
        while j < h
            invariant
                j <= h,
                i < w,
                w == image@[0],
                h == image@[1],
                column == 2 + i * h,
                column + h <= image.len(),
                xPos == x + i,
                screen.wf(),
                screen.pallete == old(screen).pallete,
                forall|px: int, py: int|
                    0 <= px < 110 && 0 <= py < 88 ==> #[trigger] screen.data@[py * 110 + px]
                        == if px - x < i || (px - x == i && py - y < j) {
                        match spec_image_pixel(image@, x as int, y as int, px, py) {
                            Some(c) => c,
                            None => old(screen).data@[py * 110 + px],
                        }
                    } else {
                        old(screen).data@[py * 110 + px]
                    },
            decreases h - j,
        {
            let c: u8 = image[column + j];
            let ghost before = screen.data@;
            if c != TRANSPARENT_COLOR {
                screen.drawPixel(xPos, y as i16 + j as i16, c);
            }
            proof {
                assert forall|px: int, py: int| 0 <= px < 110 && 0 <= py < 88 implies #[trigger] screen.data@[py
                    * 110 + px] == if px - x < i || (px - x == i && py - y < j + 1) {
                    match spec_image_pixel(image@, x as int, y as int, px, py) {
                        Some(c) => c,
                        None => old(screen).data@[py * 110 + px],
                    }
                } else {
                    old(screen).data@[py * 110 + px]
                } by {
                    assert(screen.data@[py * 110 + px] == if px == xPos && py == y + j && c
                        != TRANSPARENT_COLOR {
                        c
                    } else {
                        before[py * 110 + px]
                    });
                }
            }
            j += 1;
        }
        i += 1;
    }
}

/// What the sprite renderer keeps between calls: a depth for every rendered
/// column, and the limits for casting rays.
#[allow(non_camel_case_types)]
#[allow(non_snake_case)]
#[derive(Debug)]
pub struct RCL_General {
    /// 1D z-buffer for visibility determination.
    pub zBuffer: [RCL_Unit; 55],
    pub defaultConstraints: RCL_RayConstraints,
}

/// The colour that a scaled square sprite shows at the screen position
/// `(px, py)`, if any.
///
/// The sprite is `size` pixels wide and high on screen and its middle is at
/// `(x, y)`. Screen pixel `(i, j)` of the sprite shows the sprite's pixel
/// `(i * w / size, j * w / size)`, where `w` is the sprite's width. A column
/// of the sprite shows only where the depth buffer holds a depth greater
/// than `depth`; pixels of the transparent colour are left out; `intensity`
/// is added to every colour that shows.
pub open spec fn spec_sprite_pixel(
    z_buffer: [RCL_Unit; 55],
    sprite: Seq<u8>,
    x: int,
    y: int,
    depth: RCL_Unit,
    size: int,
    intensity: i8,
    px: int,
    py: int,
) -> Option<u8> {
    let i = px - (x - size / 2);
    let j = py - (y - size / 2);
    let w = sprite[0] as int;
    let c = sprite[2 + ((i * w) / size) * w + (j * w) / size];
    if size <= 200 && sprite[0] == sprite[1] && 0 <= i < size && 0 <= j < size && 0 <= px < 110
        && 0 <= py < 88 && z_buffer[px / 2] > depth && c != TRANSPARENT_COLOR {
        Some(spec_add_intensity(c, intensity))
    } else {
        None
    }
}

/// The palette byte at the screen position `(px, py)` after the sprite has
/// been drawn over the pixel bytes `data`.
pub open spec fn spec_after_sprite(
    data: Seq<u8>,
    z_buffer: [RCL_Unit; 55],
    sprite: Seq<u8>,
    x: int,
    y: int,
    depth: RCL_Unit,
    size: int,
    intensity: i8,
    px: int,
    py: int,
) -> u8 {
    match spec_sprite_pixel(z_buffer, sprite, x, y, depth, size, intensity, px, py) {
        Some(c) => c,
        None => data[py * 110 + px],
    }
}

impl RCL_General {
    pub fn new() -> (g: RCL_General)
        ensures
            g.defaultConstraints == (RCL_RayConstraints { maxHits: 0, maxSteps: 0 }),
            forall|i: int| 0 <= i < 55 ==> g.zBuffer[i] == 0,
    {
        RCL_General {
            zBuffer: [0; 55],
            defaultConstraints: RCL_RayConstraints { maxHits: 0, maxSteps: 0 },
        }
    }

    /// Sets the default ray limits and clears the depth buffer.
    #[allow(non_snake_case)]
    pub fn initGeneral(&mut self)
        ensures
            final(self).defaultConstraints == (RCL_RayConstraints { maxHits: 1, maxSteps: 20 }),
            forall|i: int| 0 <= i < 55 ==> final(self).zBuffer[i] == 0,
    {
        self.defaultConstraints.init();
        let mut i: usize = 0;
        while i < 55
            invariant
                i <= 55,
                self.defaultConstraints == (RCL_RayConstraints { maxHits: 1, maxSteps: 20 }),
                forall|k: int| 0 <= k < i ==> self.zBuffer[k] == 0,
            decreases 55 - i,
        {
            self.zBuffer[i] = 0;
            i += 1;
        }
    }

    /// Draws a scaled sprite on screen. The sprite has to be square; one
    /// that is not, or a size above 200, draws nothing.
    #[allow(non_snake_case)]
    pub fn drawSpriteSquare(
        &mut self,
        screen: &mut Screen,
        sprite: &[u8],
        x: i16,
        y: i16,
        depth: RCL_Unit,
        size: u16,
        intensity: i8,
    )
        requires
            old(screen).wf(),
            sprite.len() >= 3,
            sprite.len() >= 2 + sprite@[0] * sprite@[0],
        ensures
            *final(self) == *old(self),
            final(screen).wf(),
            final(screen).pallete == old(screen).pallete,
            forall|px: int, py: int|
                0 <= px < 110 && 0 <= py < 88 ==> #[trigger] final(screen).data@[py * 110 + px]
                    == spec_after_sprite(
                    old(screen).data@,
                    old(self).zBuffer,
                    sprite@,
                    x as int,
                    y as int,
                    depth,
                    size as int,
                    intensity,
                    px,
                    py,
                ),
    {
        if size > 200 || sprite[0] != sprite[1] {
            return ;
        }
        let w: usize = sprite[0] as usize;
        let n: usize = size as usize;

        // optimization: precompute the indices
        let mut samplingIndices: Vec<usize> = Vec::new();
        let mut k: usize = 0;
        while k < n
            invariant
                k <= n,
                n <= 200,
                w <= 255,
                samplingIndices.len() == k,
                forall|t: int| 0 <= t < k ==> samplingIndices@[t] == (t * w) / (n as int),
                forall|t: int| 0 <= t < k ==> #[trigger] samplingIndices@[t] < w || (w == 0 && samplingIndices@[t] == 0),
            decreases n - k,
        {
            assert(0 <= k * w <= 200 * 255) by (nonlinear_arith)
                requires
                    0 <= k <= 200,
                    0 <= w <= 255,
            ;
            assert(0 <= (k * w) / (n as int) && ((k * w) / (n as int) < w || (w == 0 && (k * w) / (
            n as int) == 0))) by (nonlinear_arith)
                requires
                    0 <= k < n,
                    0 <= w,
            ;
            samplingIndices.push((k * w) / n);
            k += 1;
        }
        let x0: i32 = x as i32 - (size / 2) as i32;
        let y0: i32 = y as i32 - (size / 2) as i32;

        let over_y: i32 = if y0 + size as i32 - 88 > 0 {
            y0 + size as i32 - 88
        } else {
            0
        };
        let over_x: i32 = if x0 + size as i32 - 110 > 0 {
            x0 + size as i32 - 110
        } else {
            0
        };
        let jTo: i32 = size as i32 - over_y;
        let iTo: i32 = size as i32 - over_x;
        let i_from: i32 = if -x0 > 0 {
            -x0
        } else {
            0
        };
        let j_from: i32 = if -y0 > 0 {
            -y0
        } else {
            0
        };

        let mut i: i32 = i_from;
        while i < iTo
            invariant
                i_from <= i,
                0 <= i_from,
                0 <= j_from,
                iTo <= n,
                jTo <= n,
                iTo <= 110 - x0,
                jTo <= 88 - y0,
                i_from >= -x0,
                j_from >= -y0,
                i_from == 0 || i_from == -x0,
                j_from == 0 || j_from == -y0,
                iTo == n || iTo == 110 - x0,
                jTo == n || jTo == 88 - y0,
                n == size,
                n <= 200,
                w == sprite@[0],
                sprite@[0] == sprite@[1],
                sprite.len() >= 2 + w * w,
                sprite.len() >= 3,
                w <= 255,
                x0 == x - size / 2,
                y0 == y - size / 2,
                samplingIndices.len() == n,
                forall|t: int| 0 <= t < n ==> samplingIndices@[t] == (t * w) / (n as int),
                forall|t: int|
                    0 <= t < n ==> #[trigger] samplingIndices@[t] < w || (w == 0 && samplingIndices@[t] == 0),
                *self == *old(self),
                screen.wf(),
                screen.pallete == old(screen).pallete,
                forall|px: int, py: int|
                    0 <= px < 110 && 0 <= py < 88 ==> #[trigger] screen.data@[py * 110 + px]
                        == if px - x0 < i {
                        spec_after_sprite(old(screen).data@, self.zBuffer, sprite@, x as int, y as int, depth, size as int, intensity, px, py)
                    } else {
                        old(screen).data@[py * 110 + px]
                    },
            decreases iTo - i,
        {
            let xPos: i32 = x0 + i;
            if self.zBuffer[(xPos / 2) as usize] > depth {
                let si: usize = samplingIndices[i as usize];
                assert(0 <= si * w && (si * w + w <= w * w || (w == 0 && si * w == 0)))
                    by (nonlinear_arith)
                    requires
                        0 <= si,
                        si < w || (w == 0 && si == 0),
                        0 <= w,
                ;
                let columnLocation: usize = 2 + si * w;
                proof {
                    assert forall|px: int, py: int|
                        0 <= px < 110 && 0 <= py < 88 && px - x0 == i && py - y0
                            < j_from implies spec_sprite_pixel(
                        self.zBuffer,
                        sprite@,
                        x as int,
                        y as int,
                        depth,
                        size as int,
                        intensity,
                        px,
                        py,
                    ) is None by {
                        assert(x0 == x as int - (size as int) / 2);
                        assert(y0 == y as int - (size as int) / 2);
                        assert(py - (y as int - (size as int) / 2) < 0);
                    }
                }
                let mut j: i32 = j_from;
                while j < jTo
                    invariant
                        j_from <= j,
                        0 <= j_from,
                        j_from >= -y0,
                        j_from == 0 || j_from == -y0,
                        jTo == n || jTo == 88 - y0,
                        jTo <= n,
                        jTo <= 88 - y0,
                        0 <= i < n,
                        0 <= xPos < 110,
                        xPos == x0 + i,
                        self.zBuffer[xPos / 2] > depth,
                        n == size,
                        n <= 200,
                        w == sprite@[0],
                        sprite@[0] == sprite@[1],
                        sprite.len() >= 2 + w * w,
                        sprite.len() >= 3,
                        w <= 255,
                        si == (i * w) / (n as int),
                        columnLocation == 2 + si * w,
                        (columnLocation + w <= sprite.len() && si < w) || (w == 0
                            && columnLocation == 2),
                        x0 == x - size / 2,
                        y0 == y - size / 2,
                        samplingIndices.len() == n,
                        forall|t: int| 0 <= t < n ==> samplingIndices@[t] == (t * w) / (n as int),
                        forall|t: int|
                            0 <= t < n ==> #[trigger] samplingIndices@[t] < w || (w == 0 && samplingIndices@[t] == 0),
                        *self == *old(self),
                        screen.wf(),
                        screen.pallete == old(screen).pallete,
                        forall|px: int, py: int|
                            0 <= px < 110 && 0 <= py < 88 ==> #[trigger] screen.data@[py * 110
                                + px] == if px - x0 < i || (px - x0 == i && py - y0 < j) {
                                spec_after_sprite(old(screen).data@, self.zBuffer, sprite@, x as int, y as int, depth, size as int, intensity, px, py)
                            } else {
                                old(screen).data@[py * 110 + px]
                            },
                    decreases jTo - j,
                {
                    let c: u8 = sprite[columnLocation + samplingIndices[j as usize]];
                    let ghost before = screen.data@;
                    if c != TRANSPARENT_COLOR {
                        screen.drawPixel(xPos as i16, (y0 + j) as i16, addIntensity(c, intensity));
                    }
                    proof {
                        assert forall|px: int, py: int|
                            0 <= px < 110 && 0 <= py < 88 implies #[trigger] screen.data@[py * 110
                            + px] == if px - x0 < i || (px - x0 == i && py - y0 < j + 1) {
                            spec_after_sprite(old(screen).data@, self.zBuffer, sprite@, x as int, y as int, depth, size as int, intensity, px, py)
                        } else {
                            old(screen).data@[py * 110 + px]
                        } by {
                            assert(screen.data@[py * 110 + px] == if px == xPos && py == y0 + j
                                && c != TRANSPARENT_COLOR {
                                spec_add_intensity(c, intensity)
                            } else {
                                before[py * 110 + px]
                            });
                        }
                    }
                    j += 1;
                }
            }
            proof {
                assert forall|px: int, py: int|
                    0 <= px < 110 && 0 <= py < 88 && px - x0 == i && !(self.zBuffer[xPos / 2]
                        > depth && py - y0 < jTo) implies spec_sprite_pixel(
                    self.zBuffer,
                    sprite@,
                    x as int,
                    y as int,
                    depth,
                    size as int,
                    intensity,
                    px,
                    py,
                ) is None by {
                    assert(x0 == x as int - (size as int) / 2);
                    assert(y0 == y as int - (size as int) / 2);
                    assert(px == xPos);
                    if self.zBuffer[xPos / 2] > depth {
                        assert(py - y0 >= jTo);
                    }
                }
            }
            i += 1;
        }
    }
}

/// Whether pixel `i` of a texture counts for its average colour.
pub open spec fn spec_counts(texture: Seq<u8>, exclude: int, i: int) -> bool {
    texture[2 + i] as int != exclude
}

/// The sum, over the first `n` pixels that count, of channel `channel` (0
/// hue, 1 saturation, 2 value) of their colours.
pub open spec fn spec_channel_sum(texture: Seq<u8>, exclude: int, channel: int, n: int) -> int
    decreases n,
{
    if n <= 0 {
        0
    } else {
        let hsv = spec_decode_hsv(texture[2 + (n - 1)]);
        spec_channel_sum(texture, exclude, channel, n - 1) + if spec_counts(
            texture,
            exclude,
            n - 1,
        ) {
            if channel == 0 {
                hsv.0 as int
            } else if channel == 1 {
                hsv.1 as int
            } else {
                hsv.2 as int
            }
        } else {
            0
        }
    }
}

/// How many of the first `n` pixels count.
pub open spec fn spec_counted(texture: Seq<u8>, exclude: int, n: int) -> int
    decreases n,
{
    if n <= 0 {
        0
    } else {
        spec_counted(texture, exclude, n - 1) + if spec_counts(texture, exclude, n - 1) {
            1int
        } else {
            0int
        }
    }
}

/// The colour to leave out of an average, as a number; -1, which is no
/// colour, where none is given.
pub open spec fn spec_exclude(exclude_color: Option<i16>) -> int {
    match exclude_color {
        Some(c) => c as int,
        None => -1,
    }
}

/// Computes the average colour of a texture: hue, saturation and value are
/// averaged each by itself over the pixels that do not have the excluded
/// colour. At least one pixel has to count.
#[allow(non_snake_case)]
pub fn computeAverageColor(texture: &[u8], excludeColor: Option<i16>) -> (r: u8)
    requires
        texture.len() >= 2,
        texture.len() >= 2 + texture@[0] * texture@[1],
        spec_counted(texture@, spec_exclude(excludeColor), texture@[0] * texture@[1]) > 0,
    ensures
        ({
            let n = texture@[0] * texture@[1];
            let e = spec_exclude(excludeColor);
            let count = spec_counted(texture@, e, n);
            r == spec_encode_hsv(
                (spec_channel_sum(texture@, e, 0, n) / count) as u8,
                (spec_channel_sum(texture@, e, 1, n) / count) as u8,
                (spec_channel_sum(texture@, e, 2, n) / count) as u8,
            )
        }),
{
    let excludeColor: i16 = match excludeColor {
        Some(c) => c,
        None => -1,
    };
    let mut sumH: u32 = 0;
    let mut sumS: u32 = 0;
    let mut sumV: u32 = 0;
    assert(texture@[0] * texture@[1] <= 255 * 255) by (nonlinear_arith)
        requires
            0 <= texture@[0] <= 255,
            0 <= texture@[1] <= 255,
    ;
    let pixels: usize = texture[0] as usize * texture[1] as usize;
    let mut count: u32 = 0;

    let mut i: usize = 0;
    while i < pixels
        invariant
            i <= pixels,
            pixels == texture@[0] * texture@[1],
            pixels <= 255 * 255,
            texture.len() >= 2 + pixels,
            count == spec_counted(texture@, excludeColor as int, i as int),
            count <= i,
            sumH == spec_channel_sum(texture@, excludeColor as int, 0, i as int),
            sumS == spec_channel_sum(texture@, excludeColor as int, 1, i as int),
            sumV == spec_channel_sum(texture@, excludeColor as int, 2, i as int),
            sumH <= 255 * count,
            sumS <= 255 * count,
            sumV <= 255 * count,
        decreases pixels - i,
    {
        let color: u8 = texture[2 + i];
        if color as i16 != excludeColor {
            let (h, s, v) = decodeHSV(color);
            sumH += h as u32;
            sumS += s as u32;
            sumV += v as u32;
            count += 1;
        }
        i += 1;
    }
    assert(sumH as int / count as int <= 255 && sumS as int / count as int <= 255 && sumV as int
        / count as int <= 255) by (nonlinear_arith)
        requires
            count > 0,
            0 <= sumH <= 255 * count,
            0 <= sumS <= 255 * count,
            0 <= sumV <= 255 * count,
    ;
    encodeHSV((sumH / count) as u8, (sumS / count) as u8, (sumV / count) as u8)
}

} // verus!
