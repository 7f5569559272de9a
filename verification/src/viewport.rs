//! Linear mapping of a raster coordinate onto the configured window of the
//! complex plane.

use vstd::prelude::*;

use crate::complex::Complex;
use crate::fixed;

verus! {

/// Largest raster width and height the mapper accepts, so that the scaled
/// position products and the frame length fit their integer types.
pub const DIM_LIMIT: usize = 32768;

/// A raster grid together with the rectangle of the complex plane it shows.
/// The plane bounds are fixed-point coordinates.
#[derive(Clone, Copy, Debug, PartialEq, Eq, Structural)]
pub struct Viewport {
    pub width: usize,
    pub height: usize,
    pub re_min: i64,
    pub re_max: i64,
    pub im_min: i64,
    pub im_max: i64,
}

impl Viewport {
    /// A well-formed viewport: positive bounded raster dimensions and a
    /// nonempty plane rectangle within the coordinate range.
    pub open spec fn wf(self) -> bool {
        &&& 0 < self.width <= DIM_LIMIT
        &&& 0 < self.height <= DIM_LIMIT
        &&& self.re_min < self.re_max
        &&& self.im_min < self.im_max
        &&& -fixed::COORD_MAX <= self.re_min
        &&& self.re_max <= fixed::COORD_MAX
        &&& -fixed::COORD_MAX <= self.im_min
        &&& self.im_max <= fixed::COORD_MAX
    }
}

/// One axis of the linear map: `lo + (pos * (hi - lo)) / extent`, the value
/// `pos / extent` of the way from `lo` to `hi`, rounded down.
pub open spec fn map_axis_spec(lo: int, hi: int, pos: int, extent: int) -> int {
    lo + (pos * (hi - lo)) / extent
}

/// The plane coordinate shown at raster position `(col, row)`.
pub open spec fn map_spec(v: Viewport, col: int, row: int) -> (int, int) {
    (
        map_axis_spec(v.re_min as int, v.re_max as int, col, v.width as int),
        map_axis_spec(v.im_min as int, v.im_max as int, row, v.height as int),
    )
}

fn map_axis(lo: i64, hi: i64, pos: usize, extent: usize) -> (r: i64)
    requires
        lo < hi,
        -fixed::COORD_MAX <= lo,
        hi <= fixed::COORD_MAX,
        0 < extent <= DIM_LIMIT,
        pos <= extent,
    ensures
        r == map_axis_spec(lo as int, hi as int, pos as int, extent as int),
        lo <= r <= hi,
{
    let delta: u64 = (hi - lo) as u64;
    proof {
        assert((pos as int) * (delta as int) <= (extent as int) * (delta as int))
            by (nonlinear_arith)
            requires
                0 <= pos <= extent,
                0 <= delta,
        ;
        assert((extent as int) * (delta as int) <= DIM_LIMIT * (2 * fixed::COORD_MAX))
            by (nonlinear_arith)
            requires
                0 < extent <= DIM_LIMIT,
                0 <= delta <= 2 * fixed::COORD_MAX,
        ;
    }
    let num: u64 = (pos as u64) * delta;
    let q: u64 = num / (extent as u64);
    proof {
        vstd::arithmetic::div_mod::lemma_div_pos_is_pos(num as int, extent as int);
        vstd::arithmetic::div_mod::lemma_div_is_ordered(
            num as int,
            (extent as int) * (delta as int),
            extent as int,
        );
        vstd::arithmetic::div_mod::lemma_div_multiples_vanish(delta as int, extent as int);
    }
    lo + (q as i64)
}

/// Converts the raster coordinate `(col, row)` into the plane coordinate it
/// shows under `v`. The result always lies inside `v`'s plane rectangle, so
/// it is in range for the escape-time evaluator.
pub fn map(col: usize, row: usize, v: &Viewport) -> (r: Complex)
    requires
        v.wf(),
        col <= v.width,
        row <= v.height,
    ensures
        r@ == map_spec(*v, col as int, row as int),
        v.re_min <= r.re <= v.re_max,
        v.im_min <= r.im <= v.im_max,
        r.in_range(),
{
    let re = map_axis(v.re_min, v.re_max, col, v.width);
    let im = map_axis(v.im_min, v.im_max, row, v.height);
    Complex { re, im }
}

/// The map is corner-exact: raster position `(0, 0)` shows exactly
/// `(re_min, im_min)`, and `(width, height)` shows exactly `(re_max, im_max)`.
pub proof fn lemma_map_corners(v: Viewport)
    requires
        v.wf(),
    ensures
        map_spec(v, 0, 0) == (v.re_min as int, v.im_min as int),
        map_spec(v, v.width as int, v.height as int) == (v.re_max as int, v.im_max as int),
{
    let dre = v.re_max - v.re_min;
    let dim = v.im_max - v.im_min;
    vstd::arithmetic::div_mod::lemma_div_multiples_vanish(dre as int, v.width as int);
    vstd::arithmetic::div_mod::lemma_div_multiples_vanish(dim as int, v.height as int);
    vstd::arithmetic::div_mod::lemma_div_of0(v.width as int);
    vstd::arithmetic::div_mod::lemma_div_of0(v.height as int);
}

} // verus!
