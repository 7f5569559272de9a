//! Fixed-point arithmetic on the complex plane's coordinates.
//!
//! A coordinate is an `i64` counting units of `1 / SCALE`, so the real value
//! `x` is stored as `x * SCALE`. Products are rescaled with truncation toward
//! zero, which is exactly what [`fp_mul`] computes and what [`fp_mul_spec`]
//! states.

use vstd::prelude::*;

verus! {

/// Number of fixed-point units per one; a coordinate `x` is stored as `x * SCALE`.
pub const SCALE: i64 = 65536;

/// Largest magnitude (64 in plane units, `64 * SCALE`) that the arithmetic
/// operations accept, chosen so that every product in the escape-time kernel
/// fits comfortably in 64 bits.
pub const FP_OP_LIMIT: i64 = 4194304;

/// Largest magnitude (16 in plane units, `16 * SCALE`) allowed for a point
/// handed to the escape-time evaluator and for viewport bounds.
pub const COORD_MAX: i64 = 1048576;

/// The scaled product of two fixed-point values: `(a * b) / SCALE`, rounded
/// toward zero as the executable [`fp_mul`] rounds.
pub open spec fn fp_mul_spec(a: int, b: int) -> int {
    let p = a * b;
    if p >= 0 {
        p / (SCALE as int)
    } else {
        -((-p) / (SCALE as int))
    }
}

/// Relates a product's sign and magnitude to the signs and magnitudes of its
/// factors.
proof fn lemma_mul_abs(a: int, b: int, ua: int, ub: int) by (nonlinear_arith)
    requires
        ua == if a < 0 { -a } else { a },
        ub == if b < 0 { -b } else { b },
    ensures
        a * b >= 0 ==> a * b == ua * ub,
        a * b < 0 ==> -(a * b) == ua * ub,
        ((a < 0) != (b < 0)) ==> a * b <= 0,
        ((a < 0) == (b < 0)) ==> a * b >= 0,
{
}

/// Bounds the scaled product of two values that are themselves bounded by `m`.
pub proof fn lemma_fp_mul_spec_bound(a: int, b: int, m: int)
    requires
        0 <= m,
        -m <= a <= m,
        -m <= b <= m,
    ensures
        -((m * m) / (SCALE as int)) <= fp_mul_spec(a, b) <= (m * m) / (SCALE as int),
{
    let p = a * b;
    assert(-(m * m) <= p <= m * m) by (nonlinear_arith)
        requires
            0 <= m,
            -m <= a <= m,
            -m <= b <= m,
            p == a * b,
    ;
    if p >= 0 {
        vstd::arithmetic::div_mod::lemma_div_is_ordered(p, m * m, SCALE as int);
        vstd::arithmetic::div_mod::lemma_div_pos_is_pos(p, SCALE as int);
        assert((m * m) / (SCALE as int) >= 0) by {
            vstd::arithmetic::div_mod::lemma_div_pos_is_pos(m * m, SCALE as int);
        }
    } else {
        vstd::arithmetic::div_mod::lemma_div_is_ordered(-p, m * m, SCALE as int);
        vstd::arithmetic::div_mod::lemma_div_pos_is_pos(-p, SCALE as int);
    }
}

/// A scaled square is never negative, and equals the plain quotient of the
/// square by `SCALE`.
pub proof fn lemma_fp_square_nonneg(a: int)
    ensures
        fp_mul_spec(a, a) == (a * a) / (SCALE as int),
        fp_mul_spec(a, a) >= 0,
{
    assert(a * a >= 0) by (nonlinear_arith);
    vstd::arithmetic::div_mod::lemma_div_pos_is_pos(a * a, SCALE as int);
}

/// Multiplies two fixed-point values and rescales the product, truncating
/// toward zero.
pub fn fp_mul(a: i64, b: i64) -> (r: i64)
    requires
        -FP_OP_LIMIT <= a <= FP_OP_LIMIT,
        -FP_OP_LIMIT <= b <= FP_OP_LIMIT,
    ensures
        r == fp_mul_spec(a as int, b as int),
{
    let neg = (a < 0) != (b < 0);
    let ua: u64 = if a < 0 {
        (-a) as u64
    } else {
        a as u64
    };
    let ub: u64 = if b < 0 {
        (-b) as u64
    } else {
        b as u64
    };
    proof {
        lemma_mul_abs(a as int, b as int, ua as int, ub as int);
        assert(ua * ub <= FP_OP_LIMIT * FP_OP_LIMIT) by (nonlinear_arith)
            requires
                0 <= ua <= FP_OP_LIMIT,
                0 <= ub <= FP_OP_LIMIT,
        ;
    }
    let m: u64 = (ua * ub) / (SCALE as u64);
    proof {
        vstd::arithmetic::div_mod::lemma_div_is_ordered(
            (ua * ub) as int,
            (FP_OP_LIMIT * FP_OP_LIMIT) as int,
            SCALE as int,
        );
    }
    proof {
        let p = (a as int) * (b as int);
        if !neg {
            assert(p >= 0 && p == ua * ub);
        } else if p < 0 {
            assert(-p == ua * ub);
        } else {
            assert(p == ua * ub);
            assert(m == 0);
        }
    }
    if neg {
        -(m as i64)
    } else {
        m as i64
    }
}

} // verus!
