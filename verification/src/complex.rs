//! Complex numbers over fixed-point coordinates, with the three operations
//! the escape-time kernel needs: addition, multiplication, and the squared
//! magnitude.

use vstd::prelude::*;

use crate::fixed;
use crate::fixed::fp_mul_spec;

verus! {

/// A complex number; both parts are fixed-point coordinates counting units of
/// `1 / fixed::SCALE`.
#[derive(Clone, Copy, Debug, PartialEq, Eq, Structural)]
pub struct Complex {
    pub re: i64,
    pub im: i64,
}

impl View for Complex {
    type V = (int, int);

    open spec fn view(&self) -> (int, int) {
        (self.re as int, self.im as int)
    }
}

/// Componentwise complex addition.
pub open spec fn cadd(a: (int, int), b: (int, int)) -> (int, int) {
    (a.0 + b.0, a.1 + b.1)
}

/// Complex multiplication over scaled products:
/// `(a.0 * b.0 - a.1 * b.1, a.0 * b.1 + a.1 * b.0)`.
pub open spec fn cmul(a: (int, int), b: (int, int)) -> (int, int) {
    (
        fp_mul_spec(a.0, b.0) - fp_mul_spec(a.1, b.1),
        fp_mul_spec(a.0, b.1) + fp_mul_spec(a.1, b.0),
    )
}

/// The squared magnitude `re * re + im * im` as a fixed-point value.
pub open spec fn csq_mag(a: (int, int)) -> int {
    fp_mul_spec(a.0, a.0) + fp_mul_spec(a.1, a.1)
}

impl Complex {
    /// Both parts are small enough for the arithmetic operations.
    pub open spec fn ops_in_range(self) -> bool {
        &&& -fixed::FP_OP_LIMIT <= self.re <= fixed::FP_OP_LIMIT
        &&& -fixed::FP_OP_LIMIT <= self.im <= fixed::FP_OP_LIMIT
    }

    /// Both parts lie within the coordinate range accepted by the evaluator.
    pub open spec fn in_range(self) -> bool {
        &&& -fixed::COORD_MAX <= self.re <= fixed::COORD_MAX
        &&& -fixed::COORD_MAX <= self.im <= fixed::COORD_MAX
    }

    pub fn new(re: i64, im: i64) -> (r: Complex)
        ensures
            r@ == (re as int, im as int),
    {
        Complex { re, im }
    }

    pub fn add(self, other: Complex) -> (r: Complex)
        requires
            self.ops_in_range(),
            other.ops_in_range(),
        ensures
            r@ == cadd(self@, other@),
    {
        Complex { re: self.re + other.re, im: self.im + other.im }
    }

    pub fn mul(self, other: Complex) -> (r: Complex)
        requires
            self.ops_in_range(),
            other.ops_in_range(),
        ensures
            r@ == cmul(self@, other@),
    {
        let rr = fixed::fp_mul(self.re, other.re);
        let ii = fixed::fp_mul(self.im, other.im);
        let ri = fixed::fp_mul(self.re, other.im);
        let ir = fixed::fp_mul(self.im, other.re);
        proof {
            fixed::lemma_fp_mul_spec_bound(self.re as int, other.re as int, fixed::FP_OP_LIMIT as int);
            fixed::lemma_fp_mul_spec_bound(self.im as int, other.im as int, fixed::FP_OP_LIMIT as int);
            fixed::lemma_fp_mul_spec_bound(self.re as int, other.im as int, fixed::FP_OP_LIMIT as int);
            fixed::lemma_fp_mul_spec_bound(self.im as int, other.re as int, fixed::FP_OP_LIMIT as int);
        }
        Complex { re: rr - ii, im: ri + ir }
    }

    /// The squared magnitude, compared against the escape threshold instead of
    /// taking a square root.
    pub fn squared_magnitude(self) -> (r: i64)
        requires
            self.ops_in_range(),
        ensures
            r == csq_mag(self@),
            r >= 0,
    {
        proof {
            fixed::lemma_fp_mul_spec_bound(self.re as int, self.re as int, fixed::FP_OP_LIMIT as int);
            fixed::lemma_fp_mul_spec_bound(self.im as int, self.im as int, fixed::FP_OP_LIMIT as int);
            fixed::lemma_fp_square_nonneg(self.re as int);
            fixed::lemma_fp_square_nonneg(self.im as int);
        }
        let rr = fixed::fp_mul(self.re, self.re);
        let ii = fixed::fp_mul(self.im, self.im);
        rr + ii
    }
}

} // verus!
