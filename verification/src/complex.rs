//! A complex number in Cartesian form (x + yi) on fixed-point coordinates.

use vstd::prelude::*;

verus! {

use crate::fixed::FX_ARG_LIMIT;
use crate::fixed::FX_RESULT_LIMIT;
use crate::fixed::fx_mul;
use crate::fixed::fx_mul_spec;

/// A complex number whose real and imaginary parts are raw fixed-point
/// values (multiples of `1 / SCALE`).
#[derive(Clone, Copy, Debug, PartialEq, Eq, Structural)]
pub struct Z {
    /// Real part, in raw fixed-point units.
    pub re: i64,
    /// Imaginary part, in raw fixed-point units.
    pub im: i64,
}

/// Real part of the fixed-point product of two complex numbers.
pub open spec fn zmul_re(are: int, aim: int, bre: int, bim: int) -> int {
    fx_mul_spec(are, bre) - fx_mul_spec(aim, bim)
}

/// Imaginary part of the fixed-point product of two complex numbers.
pub open spec fn zmul_im(are: int, aim: int, bre: int, bim: int) -> int {
    fx_mul_spec(are, bim) + fx_mul_spec(aim, bre)
}

/// Squared magnitude of a complex number, in raw fixed-point units.
pub open spec fn norm_sqr_spec(re: int, im: int) -> int {
    fx_mul_spec(re, re) + fx_mul_spec(im, im)
}

impl Z {
    /// Builds the complex number `re + im * i` from raw coordinates.
    pub fn new(re: i64, im: i64) -> (r: Z)
        ensures
            r == (Z { re, im }),
    {
        Z { re, im }
    }

    /// Real part of the complex number.
    pub fn re(self) -> (r: i64)
        ensures
            r == self.re,
    {
        self.re
    }

    /// Imaginary part of the complex number.
    pub fn im(self) -> (r: i64)
        ensures
            r == self.im,
    {
        self.im
    }

    /// Squared magnitude, which spares a square root when comparing with a
    /// squared escape radius.
    pub fn norm_sqr(self) -> (r: i64)
        requires
            -FX_ARG_LIMIT <= self.re <= FX_ARG_LIMIT,
            -FX_ARG_LIMIT <= self.im <= FX_ARG_LIMIT,
        ensures
            r == norm_sqr_spec(self.re as int, self.im as int),
            0 <= r <= 2 * FX_RESULT_LIMIT,
    {
        let rr = fx_mul(self.re, self.re);
        let ii = fx_mul(self.im, self.im);
        proof {
            crate::fixed::lemma_fx_square_nonnegative(self.re as int);
            crate::fixed::lemma_fx_square_nonnegative(self.im as int);
        }
        rr + ii
    }

    /// Componentwise sum.
    pub fn add(self, rhs: Z) -> (r: Z)
        requires
            i64::MIN <= self.re + rhs.re <= i64::MAX,
            i64::MIN <= self.im + rhs.im <= i64::MAX,
        ensures
            r.re == self.re + rhs.re,
            r.im == self.im + rhs.im,
    {
        Z { re: self.re + rhs.re, im: self.im + rhs.im }
    }

    /// Fixed-point complex product.
    pub fn mul(self, rhs: Z) -> (r: Z)
        requires
            -FX_ARG_LIMIT <= self.re <= FX_ARG_LIMIT,
            -FX_ARG_LIMIT <= self.im <= FX_ARG_LIMIT,
            -FX_ARG_LIMIT <= rhs.re <= FX_ARG_LIMIT,
            -FX_ARG_LIMIT <= rhs.im <= FX_ARG_LIMIT,
        ensures
            r.re == zmul_re(self.re as int, self.im as int, rhs.re as int, rhs.im as int),
            r.im == zmul_im(self.re as int, self.im as int, rhs.re as int, rhs.im as int),
            -2 * FX_RESULT_LIMIT <= r.re <= 2 * FX_RESULT_LIMIT,
            -2 * FX_RESULT_LIMIT <= r.im <= 2 * FX_RESULT_LIMIT,
    {
        let rr = fx_mul(self.re, rhs.re);
        let ii = fx_mul(self.im, rhs.im);
        let ri = fx_mul(self.re, rhs.im);
        let ir = fx_mul(self.im, rhs.re);
        Z { re: rr - ii, im: ri + ir }
    }
}

} // verus!
