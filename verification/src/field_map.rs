//! The coordinate field mapper: a cached lookup from a linear pixel index
//! to a point of the complex plane, derived from a viewport and a
//! resolution.

use vstd::prelude::*;

verus! {

use vstd::arithmetic::div_mod::lemma_div_pos_is_pos;
use vstd::arithmetic::div_mod::lemma_fundamental_div_mod;
use vstd::arithmetic::div_mod::lemma_mod_division_less_than_divisor;
use vstd::arithmetic::div_mod::lemma_remainder_lower;
use vstd::arithmetic::mul::lemma_mul_inequality;
use vstd::arithmetic::mul::lemma_mul_nonnegative;
use crate::complex::Z;
use crate::fixed::COORD_LIMIT;
use crate::strategy::ComputeError;

/// The point on an axis reached from `origin` after `x` grid steps of
/// `delta`, walking right along the real axis.
pub open spec fn point_re_spec(origin: int, delta: int, x: int) -> int {
    origin + x * delta
}

/// The point on an axis reached from `origin` after `y` grid steps of
/// `delta`, walking down along the imaginary axis.
pub open spec fn point_im_spec(origin: int, delta: int, y: int) -> int {
    origin - y * delta
}

/// The viewport corners describe a non-degenerate, non-inverted rectangle
/// within the representable window, at a nonzero resolution whose pixel
/// count fits in one buffer.
///
/// The last two conditions are resolution limits of the fixed-point
/// representation: each axis must span at least one raw unit per pixel,
/// so that every grid step is positive and no two pixels collapse onto
/// the same coordinate.  A raw unit is `1 / SCALE` of the plane, so the
/// limit is reached only at extreme zooms.
pub open spec fn region_ok(upper_left: Z, lower_right: Z, width: nat, height: nat) -> bool {
    &&& 0 < width <= u32::MAX
    &&& 0 < height <= u32::MAX
    &&& upper_left.re < lower_right.re
    &&& lower_right.im < upper_left.im
    &&& -COORD_LIMIT <= upper_left.re <= COORD_LIMIT
    &&& -COORD_LIMIT <= upper_left.im <= COORD_LIMIT
    &&& -COORD_LIMIT <= lower_right.re <= COORD_LIMIT
    &&& -COORD_LIMIT <= lower_right.im <= COORD_LIMIT
    &&& width * height <= usize::MAX
    &&& width <= lower_right.re - upper_left.re
    &&& height <= upper_left.im - lower_right.im
}

/// Runtime test of exactly the condition `region_ok` states.
pub fn region_check(upper_left: Z, lower_right: Z, re_resolution: usize, im_resolution: usize) -> (r:
    bool)
    ensures
        r == region_ok(upper_left, lower_right, re_resolution as nat, im_resolution as nat),
{
    proof {
        lemma_mul_nonnegative(re_resolution as int, im_resolution as int);
        vstd::arithmetic::mul::lemma_mul_upper_bound(
            re_resolution as int,
            u64::MAX as int,
            im_resolution as int,
            u64::MAX as int,
        );
    }
    let pixels: u128 = (re_resolution as u128) * (im_resolution as u128);
    re_resolution > 0 && im_resolution > 0 && re_resolution <= (u32::MAX as usize) && im_resolution
        <= (u32::MAX as usize) && upper_left.re < lower_right.re && lower_right.im < upper_left.im
        && upper_left.re >= -COORD_LIMIT && upper_left.re <= COORD_LIMIT && upper_left.im
        >= -COORD_LIMIT && upper_left.im <= COORD_LIMIT && lower_right.re >= -COORD_LIMIT
        && lower_right.re <= COORD_LIMIT && lower_right.im >= -COORD_LIMIT && lower_right.im
        <= COORD_LIMIT && pixels <= (usize::MAX as u128) && (re_resolution as i64) <= lower_right.re
        - upper_left.re && (im_resolution as i64) <= upper_left.im - lower_right.im
}

/// Derived, cached coordinate lookup: one precomputed coordinate per
/// column and per row.
#[derive(Clone, Debug)]
pub struct FieldMap {
    /// Horizontal resolution: number of columns.
    pub re_resolution: usize,
    /// Vertical resolution: number of rows.
    pub im_resolution: usize,
    /// Real coordinate of each column, left to right.
    pub precomputed_re: Vec<i64>,
    /// Imaginary coordinate of each row, top to bottom.
    pub precomputed_im: Vec<i64>,
}

impl FieldMap {
    /// One coordinate per column and per row, all within the representable
    /// window, with a pixel count that fits in one buffer.
    pub open spec fn wf(self) -> bool {
        &&& self.precomputed_re@.len() == self.re_resolution
        &&& self.precomputed_im@.len() == self.im_resolution
        &&& 0 < self.re_resolution
        &&& 0 < self.im_resolution
        &&& self.re_resolution * self.im_resolution <= usize::MAX
        &&& forall|x: int|
            0 <= x < self.precomputed_re@.len() ==> -COORD_LIMIT <= #[trigger] self.precomputed_re@[x]
                <= COORD_LIMIT
        &&& forall|y: int|
            0 <= y < self.precomputed_im@.len() ==> -COORD_LIMIT <= #[trigger] self.precomputed_im@[y]
                <= COORD_LIMIT
    }

    /// Number of pixels covered by the map.
    pub open spec fn limit_spec(self) -> nat {
        (self.re_resolution * self.im_resolution) as nat
    }

    /// The point looked up for the linear index `i`, row-major.
    pub open spec fn point_spec(self, i: int) -> (int, int) {
        (
            self.precomputed_re@[i % (self.re_resolution as int)] as int,
            self.precomputed_im@[i / (self.re_resolution as int)] as int,
        )
    }

    /// Builds the coordinate tables for a viewport, walking from the
    /// upper-left corner in grid steps of one pixel.
    ///
    /// Fails with `InvalidRegion` exactly when the viewport is degenerate,
    /// inverted, of zero resolution, outside the representable window,
    /// too large for one buffer, or so thin that an axis would span less
    /// than one raw unit per pixel.  Every accepted viewport therefore
    /// has positive grid steps: the real coordinates strictly increase
    /// and the imaginary coordinates strictly decrease.
    pub fn new(upper_left: Z, lower_right: Z, re_resolution: usize, im_resolution: usize) -> (r:
        Result<FieldMap, ComputeError>)
        ensures
            r is Ok <==> region_ok(upper_left, lower_right, re_resolution as nat, im_resolution as nat),
            r is Err ==> r->Err_0 == ComputeError::InvalidRegion,
            r is Ok ==> ({
                let fm = r->Ok_0;
                let dre = (lower_right.re - upper_left.re) / (re_resolution as int);
                let dim = (upper_left.im - lower_right.im) / (im_resolution as int);
                &&& fm.wf()
                &&& fm.re_resolution == re_resolution
                &&& fm.im_resolution == im_resolution
                &&& 1 <= dre
                &&& 1 <= dim
                &&& forall|x: int|
                    0 <= x < re_resolution ==> #[trigger] fm.precomputed_re@[x] == point_re_spec(
                        upper_left.re as int,
                        dre,
                        x,
                    )
                &&& forall|y: int|
                    0 <= y < im_resolution ==> #[trigger] fm.precomputed_im@[y] == point_im_spec(
                        upper_left.im as int,
                        dim,
                        y,
                    )
                &&& forall|x: int|
                    0 <= x < re_resolution - 1 ==> #[trigger] fm.precomputed_re@[x]
                        < fm.precomputed_re@[x + 1]
                &&& forall|y: int|
                    0 <= y < im_resolution - 1 ==> #[trigger] fm.precomputed_im@[y]
                        > fm.precomputed_im@[y + 1]
            }),
    {
        if !region_check(upper_left, lower_right, re_resolution, im_resolution) {
            return Err(ComputeError::InvalidRegion);
        }
        let re_span: i64 = lower_right.re - upper_left.re;
        let im_span: i64 = upper_left.im - lower_right.im;
        let re_delta: i64 = ((re_span as u64) / (re_resolution as u64)) as i64;
        let im_delta: i64 = ((im_span as u64) / (im_resolution as u64)) as i64;
        proof {
            lemma_div_pos_is_pos(re_span as int, re_resolution as int);
            lemma_div_pos_is_pos(im_span as int, im_resolution as int);
            vstd::arithmetic::div_mod::lemma_div_nonincreasing(re_span as int, re_resolution as int);
            vstd::arithmetic::div_mod::lemma_div_nonincreasing(im_span as int, im_resolution as int);
            vstd::arithmetic::div_mod::lemma_div_is_ordered(
                re_resolution as int,
                re_span as int,
                re_resolution as int,
            );
            vstd::arithmetic::div_mod::lemma_div_by_self(re_resolution as int);
            vstd::arithmetic::div_mod::lemma_div_is_ordered(
                im_resolution as int,
                im_span as int,
                im_resolution as int,
            );
            vstd::arithmetic::div_mod::lemma_div_by_self(im_resolution as int);
        }
        let mut precomputed_re: Vec<i64> = Vec::new();
        let mut x: usize = 0;
        while x < re_resolution
            invariant
                x <= re_resolution,
                0 < re_resolution <= u32::MAX,
                upper_left.re < lower_right.re,
                -COORD_LIMIT <= upper_left.re <= COORD_LIMIT,
                -COORD_LIMIT <= lower_right.re <= COORD_LIMIT,
                re_delta == (lower_right.re - upper_left.re) / (re_resolution as int),
                precomputed_re@.len() == x,
                forall|j: int|
                    0 <= j < x ==> #[trigger] precomputed_re@[j] == point_re_spec(
                        upper_left.re as int,
                        re_delta as int,
                        j,
                    ),
                forall|j: int|
                    0 <= j < x ==> -COORD_LIMIT <= #[trigger] precomputed_re@[j] <= COORD_LIMIT,
            decreases re_resolution - x,
        {
            proof {
                lemma_grid_offset_bounds(
                    upper_left.re as int,
                    lower_right.re as int,
                    re_resolution as int,
                    x as int,
                );
            }
            let step: i64 = (x as i64) * re_delta;
            precomputed_re.push(upper_left.re + step);
            x = x + 1;
        }
        let mut precomputed_im: Vec<i64> = Vec::new();
        let mut y: usize = 0;
        while y < im_resolution
            invariant
                y <= im_resolution,
                0 < im_resolution <= u32::MAX,
                lower_right.im < upper_left.im,
                -COORD_LIMIT <= upper_left.im <= COORD_LIMIT,
                -COORD_LIMIT <= lower_right.im <= COORD_LIMIT,
                im_delta == (upper_left.im - lower_right.im) / (im_resolution as int),
                precomputed_im@.len() == y,
                forall|j: int|
                    0 <= j < y ==> #[trigger] precomputed_im@[j] == point_im_spec(
                        upper_left.im as int,
                        im_delta as int,
                        j,
                    ),
                forall|j: int|
                    0 <= j < y ==> -COORD_LIMIT <= #[trigger] precomputed_im@[j] <= COORD_LIMIT,
            decreases im_resolution - y,
        {
            proof {
                lemma_grid_offset_bounds(
                    lower_right.im as int,
                    upper_left.im as int,
                    im_resolution as int,
                    y as int,
                );
            }
            let step: i64 = (y as i64) * im_delta;
            precomputed_im.push(upper_left.im - step);
            y = y + 1;
        }
        proof {
            assert forall|j: int| 0 <= j < re_resolution - 1 implies #[trigger] precomputed_re@[j]
                < precomputed_re@[j + 1] by {
                vstd::arithmetic::mul::lemma_mul_is_distributive_add_other_way(
                    re_delta as int,
                    j,
                    1,
                );
            }
            assert forall|j: int| 0 <= j < im_resolution - 1 implies #[trigger] precomputed_im@[j]
                > precomputed_im@[j + 1] by {
                vstd::arithmetic::mul::lemma_mul_is_distributive_add_other_way(
                    im_delta as int,
                    j,
                    1,
                );
            }
        }
        Ok(
            FieldMap {
                re_resolution,
                im_resolution,
                precomputed_re,
                precomputed_im,
            },
        )
    }

    /// Looks up the point sampled for a linear pixel index, row-major.
    ///
    /// An out-of-range index is a programming error, ruled out by the
    /// precondition: indices are always generated below `get_limit()`.
    pub fn get_point(&self, index: usize) -> (r: Z)
        requires
            self.wf(),
            index < self.limit_spec(),
        ensures
            r.re == self.point_spec(index as int).0,
            r.im == self.point_spec(index as int).1,
            -COORD_LIMIT <= r.re <= COORD_LIMIT,
            -COORD_LIMIT <= r.im <= COORD_LIMIT,
    {
        let x = index % self.re_resolution;
        let y = index / self.re_resolution;
        proof {
            lemma_mod_division_less_than_divisor(index as int, self.re_resolution as int);
            lemma_div_pos_is_pos(index as int, self.re_resolution as int);
            vstd::arithmetic::div_mod::lemma_multiply_divide_lt(
                index as int,
                self.re_resolution as int,
                self.im_resolution as int,
            );
        }
        Z { re: self.precomputed_re[x], im: self.precomputed_im[y] }
    }

    /// Number of pixels covered by the map: one per coordinate pair.
    pub fn get_limit(&self) -> (r: usize)
        requires
            self.wf(),
        ensures
            r == self.limit_spec(),
    {
        self.re_resolution * self.im_resolution
    }
}

/// Walking `j < n` grid steps of `(hi - lo) / n` from `lo` stays within
/// `[lo, hi]`.
pub proof fn lemma_grid_offset_bounds(lo: int, hi: int, n: int, j: int)
    requires
        lo < hi,
        0 < n,
        0 <= j < n,
    ensures
        0 <= j * ((hi - lo) / n) <= hi - lo,
{
    let d = (hi - lo) / n;
    lemma_div_pos_is_pos(hi - lo, n);
    lemma_mul_nonnegative(j, d);
    lemma_mul_inequality(j, n, d);
    lemma_fundamental_div_mod(hi - lo, n);
    lemma_remainder_lower(hi - lo, n);
    assert(n * d <= hi - lo);
    assert(j * d <= n * d);
}

} // verus!
