//! The bounded escape-time test: iterate `z' = z * z + c` from `z = (0, 0)`
//! and report how many completed iterations passed before the squared
//! magnitude first exceeded the threshold, or `max_iter` if it never did.
//!
//! The threshold check runs right after each update step, so a point whose
//! own squared magnitude exceeds the threshold is reported as escaping at
//! iteration 0. That convention is deliberate and determines the reported
//! counts.

use vstd::prelude::*;

use crate::complex::{cadd, cmul, csq_mag, Complex};
use crate::fixed;

verus! {

/// The squared-magnitude escape threshold: 4 in plane units (`4 * SCALE`),
/// equivalent to a magnitude of 2.
pub const ESCAPE_THRESHOLD: i64 = 262144;

/// One update of the orbit: `z * z + c`.
pub open spec fn escape_step(z: (int, int), c: (int, int)) -> (int, int) {
    cadd(cmul(z, z), c)
}

/// The escape count reached from state `z` after `i` completed iterations,
/// with at most `max_iter - i` updates left to run.
pub open spec fn escape_time_rec(c: (int, int), z: (int, int), i: nat, max_iter: nat) -> nat
    decreases max_iter - i,
{
    if i >= max_iter {
        max_iter
    } else {
        let z1 = escape_step(z, c);
        if csq_mag(z1) > ESCAPE_THRESHOLD {
            i
        } else {
            escape_time_rec(c, z1, i + 1, max_iter)
        }
    }
}

/// The escape count of the point `c`: the number of completed iterations
/// before the orbit of `0` under `z * z + c` first exceeds the threshold, or
/// `max_iter` if it stays bounded that long.
pub open spec fn escape_time(c: (int, int), max_iter: nat) -> nat {
    escape_time_rec(c, (0int, 0int), 0, max_iter)
}

proof fn lemma_escape_time_rec_le(c: (int, int), z: (int, int), i: nat, max_iter: nat)
    requires
        i <= max_iter,
    ensures
        i <= escape_time_rec(c, z, i, max_iter) <= max_iter,
    decreases max_iter - i,
{
    if i < max_iter {
        let z1 = escape_step(z, c);
        if !(csq_mag(z1) > ESCAPE_THRESHOLD) {
            lemma_escape_time_rec_le(c, z1, i + 1, max_iter);
        }
    }
}

/// Every escape count lies in `[0, max_iter]`, for every point of the plane
/// and every iteration cap.
pub proof fn lemma_escape_time_bounded(c: (int, int), max_iter: nat)
    ensures
        0 <= escape_time(c, max_iter) <= max_iter,
{
    lemma_escape_time_rec_le(c, (0int, 0int), 0, max_iter);
}

proof fn lemma_origin_rec(i: nat, max_iter: nat)
    requires
        i <= max_iter,
    ensures
        escape_time_rec((0int, 0int), (0int, 0int), i, max_iter) == max_iter,
    decreases max_iter - i,
{
    if i < max_iter {
        assert(escape_step((0int, 0int), (0int, 0int)) == (0int, 0int));
        lemma_origin_rec(i + 1, max_iter);
    }
}

/// The orbit of the origin stays at the origin, so the origin never escapes:
/// whatever the iteration cap, its count is the cap itself.
pub proof fn lemma_origin_never_escapes(max_iter: nat)
    ensures
        escape_time((0int, 0int), max_iter) == max_iter,
{
    lemma_origin_rec(0, max_iter);
}

proof fn lemma_minus_one_rec(z: (int, int), i: nat, max_iter: nat)
    requires
        i <= max_iter,
        z == (0int, 0int) || z == (-(fixed::SCALE as int), 0int),
    ensures
        escape_time_rec((-(fixed::SCALE as int), 0int), z, i, max_iter) == max_iter,
    decreases max_iter - i,
{
    if i < max_iter {
        let z1 = escape_step(z, (-(fixed::SCALE as int), 0int));
        assert(z1 == (0int, 0int) || z1 == (-(fixed::SCALE as int), 0int));
        assert(csq_mag(z1) <= ESCAPE_THRESHOLD);
        lemma_minus_one_rec(z1, i + 1, max_iter);
    }
}

/// The orbit of (-1, 0) cycles between (-1, 0) and the origin indefinitely,
/// its magnitude never past the threshold, so the point never escapes under
/// any iteration cap.
pub proof fn lemma_minus_one_never_escapes(max_iter: nat)
    ensures
        escape_time((-(fixed::SCALE as int), 0int), max_iter) == max_iter,
{
    lemma_minus_one_rec((0int, 0int), 0, max_iter);
}

/// A point whose own squared magnitude already exceeds the threshold is
/// reported as escaping at iteration 0: the check runs right after the first
/// update, which lands on the point itself.
pub proof fn lemma_immediate_escape(c: (int, int), max_iter: nat)
    requires
        csq_mag(c) > ESCAPE_THRESHOLD,
        max_iter > 0,
    ensures
        escape_time(c, max_iter) == 0,
{
    assert(escape_step((0int, 0int), c) == c);
}

/// A state with squared magnitude under the threshold has both parts within
/// three units of the origin.
proof fn lemma_sq_mag_component_bound(z: (int, int))
    requires
        csq_mag(z) <= ESCAPE_THRESHOLD,
    ensures
        -3 * fixed::SCALE <= z.0 <= 3 * fixed::SCALE,
        -3 * fixed::SCALE <= z.1 <= 3 * fixed::SCALE,
{
    let s = fixed::SCALE as int;
    fixed::lemma_fp_square_nonneg(z.0);
    fixed::lemma_fp_square_nonneg(z.1);
    vstd::arithmetic::div_mod::lemma_fundamental_div_mod(z.0 * z.0, s);
    vstd::arithmetic::div_mod::lemma_mod_division_less_than_divisor(z.0 * z.0, s);
    vstd::arithmetic::div_mod::lemma_fundamental_div_mod(z.1 * z.1, s);
    vstd::arithmetic::div_mod::lemma_mod_division_less_than_divisor(z.1 * z.1, s);
    assert(z.0 * z.0 < 5 * s * s);
    assert(z.1 * z.1 < 5 * s * s);
    assert(-3 * s <= z.0 <= 3 * s) by (nonlinear_arith)
        requires
            s == fixed::SCALE as int,
            z.0 * z.0 < 5 * s * s,
    ;
    assert(-3 * s <= z.1 <= 3 * s) by (nonlinear_arith)
        requires
            s == fixed::SCALE as int,
            z.1 * z.1 < 5 * s * s,
    ;
}

/// Bounds the update step: from a state under the threshold and a point in
/// coordinate range, every intermediate and the next state stay within the
/// range the arithmetic operations accept.
proof fn lemma_step_in_range(z: (int, int), c: (int, int))
    requires
        csq_mag(z) <= ESCAPE_THRESHOLD,
        -fixed::COORD_MAX <= c.0 <= fixed::COORD_MAX,
        -fixed::COORD_MAX <= c.1 <= fixed::COORD_MAX,
    ensures
        -fixed::FP_OP_LIMIT <= z.0 <= fixed::FP_OP_LIMIT,
        -fixed::FP_OP_LIMIT <= z.1 <= fixed::FP_OP_LIMIT,
        -fixed::FP_OP_LIMIT <= cmul(z, z).0 <= fixed::FP_OP_LIMIT,
        -fixed::FP_OP_LIMIT <= cmul(z, z).1 <= fixed::FP_OP_LIMIT,
        -fixed::FP_OP_LIMIT <= escape_step(z, c).0 <= fixed::FP_OP_LIMIT,
        -fixed::FP_OP_LIMIT <= escape_step(z, c).1 <= fixed::FP_OP_LIMIT,
{
    lemma_sq_mag_component_bound(z);
    let m = 3 * fixed::SCALE as int;
    fixed::lemma_fp_mul_spec_bound(z.0, z.0, m);
    fixed::lemma_fp_mul_spec_bound(z.1, z.1, m);
    fixed::lemma_fp_mul_spec_bound(z.0, z.1, m);
    fixed::lemma_fp_mul_spec_bound(z.1, z.0, m);
    assert((m * m) / (fixed::SCALE as int) == 9 * fixed::SCALE);
}

/// Runs the bounded divergence test for the point `c` with iteration cap
/// `max_iter` and returns its escape count.
pub fn evaluate(c: Complex, max_iter: usize) -> (r: usize)
    requires
        c.in_range(),
    ensures
        r == escape_time(c@, max_iter as nat),
        r <= max_iter,
{
    let mut z = Complex::new(0, 0);
    let mut i: usize = 0;
    while i < max_iter
        invariant
            i <= max_iter,
            c.in_range(),
            csq_mag(z@) <= ESCAPE_THRESHOLD,
            escape_time_rec(c@, z@, i as nat, max_iter as nat) == escape_time(
                c@,
                max_iter as nat,
            ),
        decreases max_iter - i,
    {
        proof {
            lemma_step_in_range(z@, c@);
        }
        let z1 = z.mul(z).add(c);
        let mag = z1.squared_magnitude();
        if mag > ESCAPE_THRESHOLD {
            return i;
        }
        z = z1;
        i = i + 1;
    }
    max_iter
}

} // verus!
