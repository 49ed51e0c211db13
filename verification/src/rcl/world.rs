//! What the raycaster asks of the world and of the screen.
//!
//! The world is given square by square, by functions that the user of the
//! raycaster supplies; the screen is whatever takes the rendered pixels.
//! Each of the two is a trait with one operation and a model of it. An
//! implementation written outside of this crate gives the operation only:
//! what is proved of the raycaster then holds of it as far as the
//! operation is a function of its arguments.

use crate::rcl::screen::RCL_General;
use crate::rcl::types::RCL_PixelInfo;
use crate::rcl::units::{spec_non_zero, RCL_Unit, RCL_nonZero};
use vstd::prelude::*;

verus! {

/// A property of the squares of the world, such as the floor height or the
/// texture. Between two squares for which it differs lies a wall.
#[allow(non_camel_case_types)]
pub trait RCL_ArrayFunction {
    /// Model of `at`.
    open spec fn spec_at(&self, x: i16, y: i16) -> RCL_Unit {
        arbitrary()
    }

    /// The property of the square `(x, y)`.
    fn at(&self, x: i16, y: i16) -> (r: RCL_Unit)
        ensures
            r == self.spec_at(x, y),
    ;
}

/// Draws one pixel; the raycaster hands it what it knows of the pixel.
///
/// The model of a pixel function is the list of the pixels that it has been
/// handed. What it does to the renderer's state, such as noting a depth,
/// depends on that state and on the pixel alone.
#[allow(non_camel_case_types)]
pub trait RCL_PixelFunction: Sized {
    /// The pixels handed over so far, in order.
    open spec fn spec_drawn(&self) -> Seq<RCL_PixelInfo> {
        arbitrary()
    }

    /// The renderer's state after the pixel `info` has been drawn.
    open spec fn spec_general(general: RCL_General, info: RCL_PixelInfo) -> RCL_General {
        arbitrary()
    }

    fn pixel(&mut self, general: &mut RCL_General, info: &RCL_PixelInfo)
        ensures
            final(self).spec_drawn() == old(self).spec_drawn().push(*info),
            *final(general) == Self::spec_general(*old(general), *info),
    ;
}

/// The same height everywhere.
#[derive(Copy, Clone, Debug)]
pub struct Flat {
    pub height: RCL_Unit,
}

impl RCL_ArrayFunction for Flat {
    open spec fn spec_at(&self, x: i16, y: i16) -> RCL_Unit {
        self.height
    }

    fn at(&self, x: i16, y: i16) -> (r: RCL_Unit) {
        self.height
    }
}

/// A rectangle of squares with a value each, row after row from the square
/// `(0, 0)`; every square outside of it has the value `outside`.
#[derive(Debug)]
pub struct Grid {
    pub width: u16,
    pub height: u16,
    pub cells: Vec<RCL_Unit>,
    pub outside: RCL_Unit,
}

impl Grid {
    /// The grid holds a value for every square of its rectangle.
    pub open spec fn wf(&self) -> bool {
        self.cells.len() == self.width * self.height
    }

    /// The grid of `width` by `height` squares with the value `inside` in
    /// its rectangle.
    pub fn new(width: u16, height: u16, inside: RCL_Unit, outside: RCL_Unit) -> (g: Grid)
        requires
            width * height <= usize::MAX,
        ensures
            g.wf(),
            g.width == width,
            g.height == height,
            g.outside == outside,
            forall|i: int| 0 <= i < g.cells@.len() ==> g.cells@[i] == inside,
    {
        let n: usize = width as usize * height as usize;
        let mut cells: Vec<RCL_Unit> = Vec::new();
        let mut i: usize = 0;
        while i < n
            invariant
                i <= n,
                cells.len() == i,
                forall|k: int| 0 <= k < i ==> cells@[k] == inside,
            decreases n - i,
        {
            cells.push(inside);
            i += 1;
        }
        Grid { width, height, cells, outside }
    }

    /// Sets the value of a square of the rectangle; a square outside of it
    /// is left as it is.
    pub fn set(&mut self, x: i16, y: i16, value: RCL_Unit)
        requires
            old(self).wf(),
        ensures
            final(self).wf(),
            final(self).width == old(self).width,
            final(self).height == old(self).height,
            final(self).outside == old(self).outside,
            final(self).cells@ == if 0 <= x < old(self).width && 0 <= y < old(self).height {
                old(self).cells@.update(y * old(self).width + x, value)
            } else {
                old(self).cells@
            },
    {
        if x >= 0 && (x as i32) < self.width as i32 && y >= 0 && (y as i32) < self.height as i32 {
            assert(0 <= y * self.width + x < self.width * self.height) by (nonlinear_arith)
                requires
                    0 <= x < self.width,
                    0 <= y < self.height,
            ;
            let i: usize = y as usize * self.width as usize + x as usize;
            self.cells[i] = value;
        }
    }
}

impl RCL_ArrayFunction for Grid {
    open spec fn spec_at(&self, x: i16, y: i16) -> RCL_Unit {
        if self.wf() && 0 <= x < self.width && 0 <= y < self.height {
            self.cells@[y * self.width + x]
        } else {
            self.outside
        }
    }

    fn at(&self, x: i16, y: i16) -> (r: RCL_Unit) {
        assert(0 <= self.width * self.height <= 0xffff * 0xffff) by (nonlinear_arith)
            requires
                0 <= self.width <= 0xffff,
                0 <= self.height <= 0xffff,
        ;
        if self.cells.len() as u64 == self.width as u64 * self.height as u64 && x >= 0 && (x as i32)
            < self.width as i32 && y >= 0 && (y as i32) < self.height as i32 {
            assert(0 <= y * self.width + x < self.width * self.height) by (nonlinear_arith)
                requires
                    0 <= x < self.width,
                    0 <= y < self.height,
            ;
            self.cells[y as usize * self.width as usize + x as usize]
        } else {
            self.outside
        }
    }
}

/// Floor and ceiling height of a square in one number, so that a wall lies
/// wherever either changes: the low 16 bits of the floor height above the
/// low 16 bits of the ceiling height. Without a ceiling it is the floor
/// height alone.
#[allow(non_camel_case_types)]
pub struct _RCL_floorCeilFunction<'a, F: RCL_ArrayFunction, C: RCL_ArrayFunction> {
    pub floor: &'a F,
    pub ceiling: Option<&'a C>,
}

impl<'a, F: RCL_ArrayFunction, C: RCL_ArrayFunction> RCL_ArrayFunction for _RCL_floorCeilFunction<
    'a,
    F,
    C,
> {
    open spec fn spec_at(&self, x: i16, y: i16) -> RCL_Unit {
        match self.ceiling {
            None => self.floor.spec_at(x, y),
            Some(chf) => ((self.floor.spec_at(x, y) & 0x0000ffff) << 16u32) | (chf.spec_at(x, y)
                & 0x0000ffff),
        }
    }

    fn at(&self, x: i16, y: i16) -> (r: RCL_Unit) {
        let f = self.floor.at(x, y);
        match self.ceiling {
            None => f,
            Some(chf) => {
                let c = chf.at(x, y);
                assert((f & 0x0000ffff) >= 0 && (f & 0x0000ffff) <= 0xffff) by (bit_vector);
                ((f & 0x0000ffff) << 16u32) | (c & 0x0000ffff)
            },
        }
    }
}

/// Zero for a square at floor height zero, and for every other square a
/// number of its own, so that a wall lies around each raised square.
#[allow(non_camel_case_types)]
pub struct _floorHeightNotZeroFunction<'a, F: RCL_ArrayFunction> {
    pub floor: &'a F,
}

impl<'a, F: RCL_ArrayFunction> RCL_ArrayFunction for _floorHeightNotZeroFunction<'a, F> {
    open spec fn spec_at(&self, x: i16, y: i16) -> RCL_Unit {
        if self.floor.spec_at(x, y) == 0 {
            0
        } else {
            spec_non_zero(((x & 0x00FF) | ((y & 0x00FF) << 8u32)) as i32)
        }
    }

    fn at(&self, x: i16, y: i16) -> (r: RCL_Unit) {
        if self.floor.at(x, y) == 0 {
            0
        } else {
            assert((y & 0x00FF) >= 0 && (y & 0x00FF) <= 0xff) by (bit_vector);
            RCL_nonZero(((x & 0x00FF) | ((y & 0x00FF) << 8u32)) as RCL_Unit)
        }
    }
}

/// A screen that keeps every pixel it is handed, in order.
#[derive(Debug)]
pub struct PixelLog {
    pub pixels: Vec<RCL_PixelInfo>,
}

impl RCL_PixelFunction for PixelLog {
    open spec fn spec_drawn(&self) -> Seq<RCL_PixelInfo> {
        self.pixels@
    }

    open spec fn spec_general(general: RCL_General, info: RCL_PixelInfo) -> RCL_General {
        general
    }

    fn pixel(&mut self, general: &mut RCL_General, info: &RCL_PixelInfo) {
        self.pixels.push(*info);
    }
}

} // verus!
