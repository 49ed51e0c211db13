//! The number type that the renderer computes with.
//!
//! The pipeline is written once, over any type that offers the operations of
//! `Scalar`. Every operation has a model, a `spec_` function of the same
//! arguments, and the contracts of the pipeline are stated over these models:
//! they say which operations are applied to which values, in which order.
//! Nothing is assumed of the operations beyond that; in particular they need
//! not be associative or exact, so a backend may round.
//!
//! `Fixed` is the backend of this crate. A backend written elsewhere gives
//! the executable operations only, and its models stay abstract: what is
//! proved of the pipeline then holds of it as far as each of its operations
//! is a function of its arguments alone.

use vstd::prelude::*;

verus! {

pub trait Scalar: Copy + Sized {
    /// Model of `zero`.
    open spec fn spec_zero() -> Self {
        arbitrary()
    }

    /// Model of `one`.
    open spec fn spec_one() -> Self {
        arbitrary()
    }

    /// Model of `plus`.
    open spec fn spec_plus(self, rhs: Self) -> Self {
        arbitrary()
    }

    /// Model of `minus`.
    open spec fn spec_minus(self, rhs: Self) -> Self {
        arbitrary()
    }

    /// Model of `times`.
    open spec fn spec_times(self, rhs: Self) -> Self {
        arbitrary()
    }

    /// Model of `over`.
    open spec fn spec_over(self, rhs: Self) -> Self {
        arbitrary()
    }

    /// Model of `negated`.
    open spec fn spec_negated(self) -> Self {
        arbitrary()
    }

    /// Model of `gt`.
    open spec fn spec_gt(self, rhs: Self) -> bool {
        arbitrary()
    }

    /// Model of `ge`.
    open spec fn spec_ge(self, rhs: Self) -> bool {
        arbitrary()
    }

    /// Model of `same`.
    open spec fn spec_same(self, rhs: Self) -> bool {
        arbitrary()
    }

    /// Model of `from_i32`.
    open spec fn spec_from_i32(v: i32) -> Self {
        arbitrary()
    }

    /// Model of `from_bits`.
    open spec fn spec_from_bits(bits: u32) -> Self {
        arbitrary()
    }

    /// Model of `trunc_i32`.
    open spec fn spec_trunc_i32(self) -> i32 {
        arbitrary()
    }

    /// Model of `round_i32`.
    open spec fn spec_round_i32(self) -> i32 {
        arbitrary()
    }

    /// Model of `to_bits`.
    open spec fn spec_to_bits(self) -> u32 {
        arbitrary()
    }

    /// Model of `sqrt`.
    open spec fn spec_sqrt(self) -> Self {
        arbitrary()
    }

    /// The number 0.
    fn zero() -> (r: Self)
        ensures
            r == Self::spec_zero(),
    ;

    /// The number 1.
    fn one() -> (r: Self)
        ensures
            r == Self::spec_one(),
    ;

    /// Sum.
    fn plus(self, rhs: Self) -> (r: Self)
        ensures
            r == self.spec_plus(rhs),
    ;

    /// Difference.
    fn minus(self, rhs: Self) -> (r: Self)
        ensures
            r == self.spec_minus(rhs),
    ;

    /// Product.
    fn times(self, rhs: Self) -> (r: Self)
        ensures
            r == self.spec_times(rhs),
    ;

    /// Quotient. Total: a backend decides what a division by zero gives.
    fn over(self, rhs: Self) -> (r: Self)
        ensures
            r == self.spec_over(rhs),
    ;

    /// The number with its sign changed.
    fn negated(self) -> (r: Self)
        ensures
            r == self.spec_negated(),
    ;

    /// Whether `self` is strictly greater than `rhs`.
    fn gt(self, rhs: Self) -> (r: bool)
        ensures
            r == self.spec_gt(rhs),
    ;

    /// Whether `self` is greater than or equal to `rhs`.
    fn ge(self, rhs: Self) -> (r: bool)
        ensures
            r == self.spec_ge(rhs),
    ;

    /// Whether the two numbers compare equal.
    fn same(self, rhs: Self) -> (r: bool)
        ensures
            r == self.spec_same(rhs),
    ;

    /// The integer `v` as a number.
    fn from_i32(v: i32) -> (r: Self)
        ensures
            r == Self::spec_from_i32(v),
    ;

    /// The number that `bits` encodes as an IEEE 754 single-precision
    /// pattern, as far as the backend can hold it.
    fn from_bits(bits: u32) -> (r: Self)
        ensures
            r == Self::spec_from_bits(bits),
    ;

    /// The number without its fraction, brought into the range of `i32`.
    fn trunc_i32(self) -> (r: i32)
        ensures
            r == self.spec_trunc_i32(),
    ;

    /// The nearest integer, halves away from zero, brought into the range of
    /// `i32`.
    fn round_i32(self) -> (r: i32)
        ensures
            r == self.spec_round_i32(),
    ;

    /// The IEEE 754 single-precision pattern of the number, as far as such
    /// a pattern can hold it.
    fn to_bits(self) -> (r: u32)
        ensures
            r == self.spec_to_bits(),
    ;

    /// Square root.
    fn sqrt(self) -> (r: Self)
        ensures
            r == self.spec_sqrt(),
    ;
}

/// Whether "greater than" is a strict order on `R`: no two numbers are each
/// greater than the other, and the relation is transitive.
pub open spec fn spec_strict_order<R: Scalar>() -> bool {
    &&& forall|a: R, b: R| !(#[trigger] a.spec_gt(b) && b.spec_gt(a))
    &&& forall|a: R, b: R, c: R|
        #[trigger] a.spec_gt(b) && #[trigger] b.spec_gt(c) ==> a.spec_gt(c)
}

} // verus!
