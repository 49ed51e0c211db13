//! Input state.

use crate::arith::spec_clamp;
use crate::scalar::Scalar;
use vstd::prelude::*;

verus! {

/// One key or button: whether it is held down.
#[derive(Copy, Clone, Debug)]
pub struct Key {
    is_pressed: bool,
}

impl Key {
    /// Whether the key is held down, as a model value.
    pub closed spec fn spec_is_pressed(self) -> bool {
        self.is_pressed
    }

    /// A key that is not held down.
    pub fn new() -> (key: Key)
        ensures
            !key.spec_is_pressed(),
    {
        Key { is_pressed: false }
    }

    /// Records the state that the input device reports.
    pub fn update(&mut self, is_pressed: bool)
        ensures
            final(self).spec_is_pressed() == is_pressed,
    {
        self.is_pressed = is_pressed;
    }

    pub fn is_pressed(&self) -> (pressed: bool)
        ensures
            pressed == self.spec_is_pressed(),
    {
        self.is_pressed
    }
}

/// The pointer and the keys, as the input devices last reported them.
#[derive(Copy, Clone, Debug)]
pub struct Controls<R: Scalar> {
    pub is_pointer_locked: bool,
    /// Pointer position in whole pixels, inside the screen.
    pub m_rounded_x: u16,
    pub m_rounded_y: u16,
    /// Pointer position in pixels, with its fraction.
    pub m_prec_x: R,
    pub m_prec_y: R,
    pub lmb: Key,
    pub arrow_up: Key,
    pub arrow_down: Key,
    pub arrow_left: Key,
    pub arrow_right: Key,
    pub space: Key,
    pub a: Key,
    pub c: Key,
}

/// One axis of the pointer position after an input report. An unlocked
/// pointer, and a pointer in the report that locks or unlocks it, is put
/// at the reported absolute position; a pointer that the report holds
/// locked then moves by the reported delta. Positions and deltas are
/// divided by `scale`.
pub open spec fn spec_pointer_axis<R: Scalar>(
    was_locked: bool,
    locked: bool,
    prec: R,
    abs: R,
    delta: R,
    scale: R,
) -> R {
    let placed = if !was_locked || !locked {
        abs.spec_over(scale)
    } else {
        prec
    };
    if locked {
        placed.spec_plus(delta.spec_over(scale))
    } else {
        placed
    }
}

/// The pixel that a pointer position falls in: the position plus a half,
/// without its fraction, brought into `[0, 65535]` and then into the
/// screen.
pub open spec fn spec_pointer_pixel<R: Scalar>(prec: R, screen_size: u16) -> u16 {
    let half = R::spec_one().spec_over(R::spec_from_i32(2));
    let whole = spec_clamp(prec.spec_plus(half).spec_trunc_i32() as int, 0, 0xffff);
    if whole < screen_size - 1 {
        whole as u16
    } else {
        (screen_size - 1) as u16
    }
}

fn pointer_axis<R: Scalar>(was_locked: bool, locked: bool, prec: R, abs: R, delta: R, scale: R) -> (r:
    R)
    ensures
        r == spec_pointer_axis(was_locked, locked, prec, abs, delta, scale),
{
    let mut p = prec;
    if !was_locked || !locked {
        p = abs.over(scale);
    }
    if locked {
        p = p.plus(delta.over(scale));
    }
    p
}

fn pointer_pixel<R: Scalar>(prec: R, screen_size: u16) -> (r: u16)
    requires
        screen_size >= 1,
    ensures
        r == spec_pointer_pixel(prec, screen_size),
        r < screen_size,
{
    let raw: i32 = prec.plus(R::one().over(R::from_i32(2))).trunc_i32();
    let whole: i32 = if raw < 0 {
        0
    } else if raw > 0xffff {
        0xffff
    } else {
        raw
    };
    if whole < screen_size as i32 - 1 {
        whole as u16
    } else {
        screen_size - 1
    }
}

impl<R: Scalar> Controls<R> {
    /// The controls at rest: the pointer unlocked in the middle of the
    /// screen, no key held down.
    pub fn new(screen_width: u16, screen_height: u16) -> (r: Controls<R>)
        ensures
            !r.is_pointer_locked,
            r.m_rounded_x == screen_width / 2,
            r.m_rounded_y == screen_height / 2,
            r.m_prec_x == R::spec_from_i32(screen_width as i32).spec_over(R::spec_from_i32(2)),
            r.m_prec_y == R::spec_from_i32(screen_height as i32).spec_over(R::spec_from_i32(2)),
            !r.lmb.spec_is_pressed(),
            !r.arrow_up.spec_is_pressed(),
            !r.arrow_down.spec_is_pressed(),
            !r.arrow_left.spec_is_pressed(),
            !r.arrow_right.spec_is_pressed(),
            !r.space.spec_is_pressed(),
            !r.a.spec_is_pressed(),
            !r.c.spec_is_pressed(),
    {
        Controls {
            is_pointer_locked: false,
            m_rounded_x: screen_width / 2,
            m_rounded_y: screen_height / 2,
            m_prec_x: R::from_i32(screen_width as i32).over(R::from_i32(2)),
            m_prec_y: R::from_i32(screen_height as i32).over(R::from_i32(2)),
            lmb: Key::new(),
            arrow_up: Key::new(),
            arrow_down: Key::new(),
            arrow_left: Key::new(),
            arrow_right: Key::new(),
            space: Key::new(),
            a: Key::new(),
            c: Key::new(),
        }
    }

    /// Takes in one report of the input devices.
    pub fn input_loop(
        &mut self,
        locked_pointer: bool,
        abs_x: R,
        abs_y: R,
        delta_x: R,
        delta_y: R,
        scale: R,
        mouse_down: bool,
        mouse_up: bool,
        vku: bool,
        vkd: bool,
        vkl: bool,
        vkr: bool,
        space: bool,
        screen_width: u16,
        screen_height: u16,
    )
        requires
            screen_width >= 1,
            screen_height >= 1,
        ensures
            final(self).is_pointer_locked == locked_pointer,
            final(self).m_prec_x == spec_pointer_axis(
                old(self).is_pointer_locked,
                locked_pointer,
                old(self).m_prec_x,
                abs_x,
                delta_x,
                scale,
            ),
            final(self).m_prec_y == spec_pointer_axis(
                old(self).is_pointer_locked,
                locked_pointer,
                old(self).m_prec_y,
                abs_y,
                delta_y,
                scale,
            ),
            final(self).m_rounded_x == spec_pointer_pixel(final(self).m_prec_x, screen_width),
            final(self).m_rounded_y == spec_pointer_pixel(final(self).m_prec_y, screen_height),
            final(self).m_rounded_x < screen_width,
            final(self).m_rounded_y < screen_height,
            final(self).lmb.spec_is_pressed() == mouse_down,
            final(self).arrow_up.spec_is_pressed() == vku,
            final(self).arrow_down.spec_is_pressed() == vkd,
            final(self).arrow_left.spec_is_pressed() == vkl,
            final(self).arrow_right.spec_is_pressed() == vkr,
            final(self).space.spec_is_pressed() == space,
            final(self).a == old(self).a,
            final(self).c == old(self).c,
    {
        let was_locked = self.is_pointer_locked;
        self.m_prec_x = pointer_axis(was_locked, locked_pointer, self.m_prec_x, abs_x, delta_x, scale);
        self.m_prec_y = pointer_axis(was_locked, locked_pointer, self.m_prec_y, abs_y, delta_y, scale);
        self.is_pointer_locked = locked_pointer;
        self.m_rounded_x = pointer_pixel(self.m_prec_x, screen_width);
        self.m_rounded_y = pointer_pixel(self.m_prec_y, screen_height);

        self.lmb.update(mouse_down);
        self.arrow_up.update(vku);
        self.arrow_down.update(vkd);
        self.arrow_left.update(vkl);
        self.arrow_right.update(vkr);
        self.space.update(space);
    }

    pub fn is_pointer_locked(&self) -> (r: bool)
        ensures
            r == self.is_pointer_locked,
    {
        self.is_pointer_locked
    }

    pub fn pointer_x(&self) -> (r: u16)
        ensures
            r == self.m_rounded_x,
    {
        self.m_rounded_x
    }

    pub fn pointer_y(&self) -> (r: u16)
        ensures
            r == self.m_rounded_y,
    {
        self.m_rounded_y
    }

    pub fn pointer_precise_x(&self) -> (r: R)
        ensures
            r == self.m_prec_x,
    {
        self.m_prec_x
    }

    pub fn pointer_precise_y(&self) -> (r: R)
        ensures
            r == self.m_prec_y,
    {
        self.m_prec_y
    }
}

} // verus!
