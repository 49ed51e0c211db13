//! The render target: a colour buffer and a reciprocal-depth buffer.
//!
//! The depth buffer holds, for every pixel, the largest depth weight `w`
//! drawn there so far. `w` is the reciprocal of the distance, so a larger
//! `w` is closer, and zero stands for "infinitely far".

use crate::scalar::{spec_strict_order, Scalar};
use crate::texture::Texture;
use vstd::prelude::*;

verus! {

/// What a frame holds, as mathematical sequences.
pub struct FrameModel<R: Scalar> {
    /// Four bytes per pixel (red, green, blue, alpha), row after row.
    pub image: Seq<u8>,
    /// One depth weight per pixel, row after row.
    pub inv_depth: Seq<R>,
}

/// A colour buffer and a depth buffer of `width` by `height` pixels.
#[derive(Debug)]
pub struct Frame<R: Scalar> {
    pub width: u16,
    pub height: u16,
    pub image: Vec<u8>,
    pub inv_depth: Vec<R>,
}

impl<R: Scalar> View for Frame<R> {
    type V = FrameModel<R>;

    open spec fn view(&self) -> FrameModel<R> {
        FrameModel { image: self.image@, inv_depth: self.inv_depth@ }
    }
}

/// `image` with the four bytes of pixel `pix` replaced by `texel`.
pub open spec fn spec_put_pixel(image: Seq<u8>, pix: int, texel: Seq<u8>) -> Seq<u8> {
    image.update(4 * pix, texel[0]).update(4 * pix + 1, texel[1]).update(
        4 * pix + 2,
        texel[2],
    ).update(4 * pix + 3, texel[3])
}

/// The frame after a fragment with the premultiplied texture coordinate
/// `(u, v)` and the depth weight `w` arrives at pixel `pix`: where `w` is
/// greater than the stored weight, the pixel takes the texel at
/// `(u / w, v / w)` and the stored weight becomes `w`; else nothing changes.
pub open spec fn spec_plot<R: Scalar>(
    m: FrameModel<R>,
    pix: int,
    u: R,
    v: R,
    w: R,
    texture: Texture,
) -> FrameModel<R> {
    if w.spec_gt(m.inv_depth[pix]) {
        FrameModel {
            image: spec_put_pixel(m.image, pix, texture.spec_sample(u.spec_over(w), v.spec_over(w))),
            inv_depth: m.inv_depth.update(pix, w),
        }
    } else {
        m
    }
}

/// The frame after a fragment arrives at column `x` of row `y`. A fragment
/// outside of the frame changes nothing.
pub open spec fn spec_fragment<R: Scalar>(
    m: FrameModel<R>,
    width: int,
    height: int,
    x: int,
    y: int,
    u: R,
    v: R,
    w: R,
    texture: Texture,
) -> FrameModel<R> {
    if 0 <= x < width && 0 <= y < height {
        spec_plot(m, y * width + x, u, v, w, texture)
    } else {
        m
    }
}

/// The frame of `width` by `height` pixels with every byte and every depth
/// weight zero.
pub open spec fn spec_cleared<R: Scalar>(width: int, height: int) -> FrameModel<R> {
    FrameModel {
        image: Seq::new((4 * width * height) as nat, |i: int| 0u8),
        inv_depth: Seq::new((width * height) as nat, |i: int| R::spec_zero()),
    }
}

/// Copies texel `uv_idx` of the texture to pixel `pix_idx` of the screen.
pub fn draw_safe(screen: &mut Vec<u8>, texture: &Texture, pix_idx: usize, uv_idx: usize)
    requires
        4 * pix_idx + 4 <= old(screen).len(),
        4 * uv_idx + 4 <= texture.pixels.len(),
    ensures
        final(screen)@ == spec_put_pixel(
            old(screen)@,
            pix_idx as int,
            texture.pixels@.subrange(4 * uv_idx, 4 * uv_idx + 4),
        ),
{
    screen[4 * pix_idx] = texture.pixels[4 * uv_idx];
    screen[4 * pix_idx + 1] = texture.pixels[4 * uv_idx + 1];
    screen[4 * pix_idx + 2] = texture.pixels[4 * uv_idx + 2];
    screen[4 * pix_idx + 3] = texture.pixels[4 * uv_idx + 3];
}

/// Writes the texel in which `(u, v)` falls to the pixel in column `x` of
/// row `y` of a screen that is `width` pixels wide.
#[allow(non_snake_case)]
pub fn Draw<R: Scalar>(
    screen: &mut Vec<u8>,
    width: u16,
    texture: &Texture,
    x: usize,
    y: usize,
    u: R,
    v: R,
)
    requires
        texture.wf(),
        x < width,
        4 * (y * width + x) + 4 <= old(screen).len(),
    ensures
        final(screen)@ == spec_put_pixel(
            old(screen)@,
            y * width + x,
            texture.spec_sample(u, v),
        ),
{
    let pix_idx: usize = y * width as usize + x;
    match texture.texel_index(u, v) {
        Some(uv_idx) => {
            draw_safe(screen, texture, pix_idx, uv_idx);
        },
        None => {
            screen[4 * pix_idx] = 0;
            screen[4 * pix_idx + 1] = 0;
            screen[4 * pix_idx + 2] = 0;
            screen[4 * pix_idx + 3] = 0;
        },
    }
}

impl<R: Scalar> Frame<R> {
    /// Both buffers have a place for every pixel, and every pixel has a
    /// position that screen vertices can name.
    pub open spec fn wf(&self) -> bool {
        &&& self.image.len() == 4 * (self.width * self.height)
        &&& self.inv_depth.len() == self.width * self.height
        &&& self.width <= i16::MAX
        &&& self.height <= i16::MAX
    }

    /// A cleared frame of `width` by `height` pixels.
    pub fn new(width: u16, height: u16) -> (frame: Frame<R>)
        requires
            width <= i16::MAX,
            height <= i16::MAX,
            4 * (width * height) <= usize::MAX,
        ensures
            frame.wf(),
            frame.width == width,
            frame.height == height,
            frame@ == spec_cleared::<R>(width as int, height as int),
    {
        let pixels: usize = width as usize * height as usize;
        let mut image: Vec<u8> = Vec::new();
        let mut inv_depth: Vec<R> = Vec::new();
        let mut i: usize = 0;
        while i < pixels
            invariant
                i <= pixels,
                pixels == width * height,
                4 * pixels <= usize::MAX,
                image@.len() == 4 * i,
                inv_depth@.len() == i,
                forall|k: int| 0 <= k < image@.len() ==> image@[k] == 0u8,
                forall|k: int| 0 <= k < inv_depth@.len() ==> inv_depth@[k] == R::spec_zero(),
            decreases pixels - i,
        {
            image.push(0);
            image.push(0);
            image.push(0);
            image.push(0);
            inv_depth.push(R::zero());
            i += 1;
        }
        let frame = Frame { width, height, image, inv_depth };
        assert(4 * width * height == 4 * (width * height)) by (nonlinear_arith);
        assert(frame@.image =~= spec_cleared::<R>(width as int, height as int).image);
        assert(frame@.inv_depth =~= spec_cleared::<R>(width as int, height as int).inv_depth);
        frame
    }

    /// Clears the frame: every colour byte to zero (transparent black),
    /// every depth weight to zero (infinitely far).
    pub fn clear(&mut self)
        requires
            old(self).wf(),
        ensures
            final(self).wf(),
            final(self).width == old(self).width,
            final(self).height == old(self).height,
            final(self)@ == spec_cleared::<R>(old(self).width as int, old(self).height as int),
    {
        let mut i: usize = 0;
        while i < self.image.len()
            invariant
                self.wf(),
                self.width == old(self).width,
                self.height == old(self).height,
                i <= self.image@.len(),
                forall|k: int| 0 <= k < i ==> self.image@[k] == 0u8,
            decreases self.image@.len() - i,
        {
            self.image[i] = 0;
            i += 1;
        }
        let mut j: usize = 0;
        while j < self.inv_depth.len()
            invariant
                self.wf(),
                self.width == old(self).width,
                self.height == old(self).height,
                j <= self.inv_depth@.len(),
                forall|k: int| 0 <= k < self.image@.len() ==> self.image@[k] == 0u8,
                forall|k: int| 0 <= k < j ==> self.inv_depth@[k] == R::spec_zero(),
            decreases self.inv_depth@.len() - j,
        {
            self.inv_depth[j] = R::zero();
            j += 1;
        }
        assert(4 * self.width * self.height == 4 * (self.width * self.height))
            by (nonlinear_arith);
        assert(self@.image =~= spec_cleared::<R>(self.width as int, self.height as int).image);
        assert(self@.inv_depth =~= spec_cleared::<R>(
            self.width as int,
            self.height as int,
        ).inv_depth);
    }

    /// Handles one fragment: the bounds check, the depth test and, where the
    /// fragment is closer than what the pixel holds, the texture fetch and
    /// the writes to both buffers.
    pub fn plot(&mut self, x: i32, y: i32, u: R, v: R, w: R, texture: &Texture)
        requires
            old(self).wf(),
            texture.wf(),
        ensures
            final(self).wf(),
            final(self).width == old(self).width,
            final(self).height == old(self).height,
            final(self)@ == spec_fragment(
                old(self)@,
                old(self).width as int,
                old(self).height as int,
                x as int,
                y as int,
                u,
                v,
                w,
                *texture,
            ),
    {
        if y >= 0 && x >= 0 && y < self.height as i32 && x < self.width as i32 {
            let width: usize = self.width as usize;
            assert(y * width + x < self.width * self.height) by (nonlinear_arith)
                requires
                    0 <= x < width,
                    0 <= y < self.height,
                    width == self.width,
            ;
            let pix_idx: usize = y as usize * width + x as usize;
            if w.gt(self.inv_depth[pix_idx]) {
                Draw(
                    &mut self.image,
                    self.width,
                    texture,
                    x as usize,
                    y as usize,
                    u.over(w),
                    v.over(w),
                );
                self.inv_depth[pix_idx] = w;
            }
        }
    }
}

/// The depth test does not depend on the drawing order: where two
/// fragments fall on the same pixel and the first has the greater depth
/// weight, drawing them in either order leaves the frame as drawing the
/// first alone does.
pub proof fn lemma_depth_order_independent<R: Scalar>(
    m: FrameModel<R>,
    width: int,
    height: int,
    x: int,
    y: int,
    closer: (R, R, R),
    closer_texture: Texture,
    farther: (R, R, R),
    farther_texture: Texture,
)
    requires
        spec_strict_order::<R>(),
        0 <= width,
        0 <= height,
        m.image.len() == 4 * (width * height),
        m.inv_depth.len() == width * height,
        closer.2.spec_gt(farther.2),
    ensures
        ({
            let near = spec_fragment(
                m,
                width,
                height,
                x,
                y,
                closer.0,
                closer.1,
                closer.2,
                closer_texture,
            );
            let near_then_far = spec_fragment(
                near,
                width,
                height,
                x,
                y,
                farther.0,
                farther.1,
                farther.2,
                farther_texture,
            );
            let far = spec_fragment(
                m,
                width,
                height,
                x,
                y,
                farther.0,
                farther.1,
                farther.2,
                farther_texture,
            );
            let far_then_near = spec_fragment(
                far,
                width,
                height,
                x,
                y,
                closer.0,
                closer.1,
                closer.2,
                closer_texture,
            );
            &&& near_then_far == near
            &&& far_then_near == near
        }),
{
    if 0 <= x < width && 0 <= y < height {
        let pix = y * width + x;
        assert(0 <= pix < width * height) by (nonlinear_arith)
            requires
                0 <= x < width,
                0 <= y < height,
                pix == y * width + x,
        ;
        let d0 = m.inv_depth[pix];
        let wa = closer.2;
        let wb = farther.2;
        let near = spec_plot(m, pix, closer.0, closer.1, wa, closer_texture);
        let far = spec_plot(m, pix, farther.0, farther.1, wb, farther_texture);
        let far_then_near = spec_plot(far, pix, closer.0, closer.1, wa, closer_texture);
        assert(!wb.spec_gt(wa));
        if wb.spec_gt(d0) {
            assert(wa.spec_gt(d0));
            assert(far.inv_depth[pix] == wb);
            assert(far_then_near.image =~= near.image);
            assert(far_then_near.inv_depth =~= near.inv_depth);
        }
    }
}

/// A fragment never lowers a stored depth weight: every entry of the depth
/// buffer is afterwards what it was or a weight greater than what it was.
pub proof fn lemma_depth_monotone<R: Scalar>(
    m: FrameModel<R>,
    width: int,
    height: int,
    x: int,
    y: int,
    u: R,
    v: R,
    w: R,
    texture: Texture,
    pix: int,
)
    requires
        0 <= width,
        0 <= height,
        m.inv_depth.len() == width * height,
        0 <= pix < width * height,
    ensures
        ({
            let after = spec_fragment(m, width, height, x, y, u, v, w, texture);
            &&& after.inv_depth.len() == m.inv_depth.len()
            &&& after.inv_depth[pix] == m.inv_depth[pix] || (after.inv_depth[pix] == w
                && w.spec_gt(m.inv_depth[pix]))
        }),
{
    if 0 <= x < width && 0 <= y < height {
        assert(0 <= y * width + x < width * height) by (nonlinear_arith)
            requires
                0 <= x < width,
                0 <= y < height,
        ;
    }
}

} // verus!
