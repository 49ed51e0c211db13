//! A sign that is never zero.

use vstd::prelude::*;

verus! {

/// Plus one or minus one.
#[derive(Copy, Clone, Debug)]
pub struct NonZeroSignum {
    sign: i8,
}

impl NonZeroSignum {
    #[verifier::type_invariant]
    spec fn wf(self) -> bool {
        self.sign == 1 || self.sign == -1
    }

    /// The sign as a number, 1 or -1.
    pub closed spec fn spec_value(self) -> int {
        self.sign as int
    }

    /// The positive sign.
    pub fn pos() -> (s: NonZeroSignum)
        ensures
            s.spec_value() == 1,
    {
        NonZeroSignum { sign: 1 }
    }

    /// The negative sign.
    pub fn neg() -> (s: NonZeroSignum)
        ensures
            s.spec_value() == -1,
    {
        NonZeroSignum { sign: -1 }
    }

    pub fn is_positive(&self) -> (p: bool)
        ensures
            p <==> self.spec_value() == 1,
    {
        proof {
            use_type_invariant(self);
        }
        self.sign > 0
    }

    pub fn is_negative(&self) -> (n: bool)
        ensures
            n <==> self.spec_value() == -1,
    {
        proof {
            use_type_invariant(self);
        }
        self.sign < 0
    }

    /// The opposite sign.
    pub fn negated(self) -> (s: NonZeroSignum)
        ensures
            s.spec_value() == -self.spec_value(),
    {
        proof {
            use_type_invariant(self);
        }
        NonZeroSignum { sign: -self.sign }
    }

    /// The sign as a number.
    pub fn get(self) -> (v: i8)
        ensures
            v == self.spec_value(),
            v == 1 || v == -1,
    {
        proof {
            use_type_invariant(self);
        }
        self.sign
    }

    /// `value` moved one step in the direction of the sign.
    pub fn step_i16(self, value: i16) -> (r: i16)
        requires
            i16::MIN <= value + self.spec_value() <= i16::MAX,
        ensures
            r == value + self.spec_value(),
    {
        proof {
            use_type_invariant(self);
        }
        value + self.sign as i16
    }
}

} // verus!
