//! The escape-time evaluator: the single per-pixel numeric kernel shared
//! by all backends.
//!
//! The loop iterates `z <- z * z + c` from `z = 0` and stops once the
//! squared magnitude of `z` exceeds the squared escape radius or the
//! iteration budget is spent.  The intensity byte is the remaining budget
//! reduced modulo 256 (a wrap-around, not a saturation): points that
//! escape at once get high intensity and points that never escape get 0.
//! The wrap-around policy is applied uniformly by every backend so their
//! outputs stay comparable.

use vstd::prelude::*;

verus! {

use vstd::arithmetic::div_mod::lemma_div_is_ordered;
use vstd::arithmetic::div_mod::lemma_div_pos_is_pos;
use vstd::arithmetic::div_mod::lemma_fundamental_div_mod;
use vstd::arithmetic::div_mod::lemma_mod_division_less_than_divisor;
use crate::complex::Z;
use crate::complex::norm_sqr_spec;
use crate::complex::zmul_im;
use crate::complex::zmul_re;
use crate::fixed::COORD_LIMIT;
use crate::fixed::SCALE;
use crate::fixed::fx_scale_down;

/// Squared escape radius, in raw units: the trajectory has escaped once
/// its squared magnitude exceeds 4.
pub const ESCAPE_RADIUS_SQ: i64 = 4 * SCALE;

/// Bound kept on each coordinate of the iterated point: one escape step
/// from within the radius, offset by a representable `c`, stays inside it.
pub const Z_ITER_LIMIT: i64 = 40 * SCALE;

/// Real part of `z * z + c`.
pub open spec fn step_re(zre: int, zim: int, cre: int, cim: int) -> int {
    zmul_re(zre, zim, zre, zim) + cre
}

/// Imaginary part of `z * z + c`.
pub open spec fn step_im(zre: int, zim: int, cre: int, cim: int) -> int {
    zmul_im(zre, zim, zre, zim) + cim
}

/// Number of iterations the escape loop performs from the state `z`, with
/// `fuel` iterations of budget left: it stops on an escaped state or on an
/// exhausted budget.
pub open spec fn escape_steps(zre: int, zim: int, cre: int, cim: int, fuel: nat) -> nat
    decreases fuel,
{
    if fuel == 0 || norm_sqr_spec(zre, zim) > ESCAPE_RADIUS_SQ {
        0
    } else {
        1 + escape_steps(
            step_re(zre, zim, cre, cim),
            step_im(zre, zim, cre, cim),
            cre,
            cim,
            (fuel - 1) as nat,
        )
    }
}

/// Number of iterations the escape loop performs for the point `c` under
/// the budget `max`.
pub open spec fn escape_iters_spec(cre: int, cim: int, max: nat) -> nat {
    escape_steps(0, 0, cre, cim, max)
}

/// The intensity byte for the point `c` under the budget `max`: the
/// unspent budget, wrapped modulo 256.
pub open spec fn intensity_spec(cre: int, cim: int, max: nat) -> u8 {
    (((max - escape_iters_spec(cre, cim, max)) % 256) as u8)
}

/// The magnitudes of two factors bound the magnitude of their product.
proof fn lemma_mul_magnitude(x: int, y: int, a: int, b: int)
    by (nonlinear_arith)
    requires
        -a <= x <= a,
        -b <= y <= b,
        0 <= a,
        0 <= b,
    ensures
        -(a * b) <= x * y <= a * b,
{
}

/// Scaling a product down keeps its magnitude bound, scaled down.
proof fn lemma_fx_scale_magnitude(p: int, m: int)
    requires
        0 <= m,
        -m <= p <= m,
    ensures
        -(m / (SCALE as int)) <= fx_scale_down(p) <= m / (SCALE as int),
{
    if p >= 0 {
        lemma_div_is_ordered(p, m, SCALE as int);
        lemma_div_pos_is_pos(p, SCALE as int);
        lemma_div_pos_is_pos(m, SCALE as int);
    } else {
        lemma_div_is_ordered(-p, m, SCALE as int);
        lemma_div_pos_is_pos(-p, SCALE as int);
        lemma_div_pos_is_pos(m, SCALE as int);
    }
}

/// One escape step taken from a not-yet-escaped state, offset by a
/// representable `c`, stays within the iteration bound.
proof fn lemma_step_bounded(zre: int, zim: int, cre: int, cim: int)
    requires
        norm_sqr_spec(zre, zim) <= ESCAPE_RADIUS_SQ,
        -COORD_LIMIT <= cre <= COORD_LIMIT,
        -COORD_LIMIT <= cim <= COORD_LIMIT,
    ensures
        -Z_ITER_LIMIT <= step_re(zre, zim, cre, cim) <= Z_ITER_LIMIT,
        -Z_ITER_LIMIT <= step_im(zre, zim, cre, cim) <= Z_ITER_LIMIT,
{
    let s = SCALE as int;
    crate::fixed::lemma_fx_square_nonnegative(zre);
    crate::fixed::lemma_fx_square_nonnegative(zim);
    assert(fx_scale_down(zre * zre) <= 4 * s);
    assert(fx_scale_down(zim * zim) <= 4 * s);
    lemma_fundamental_div_mod(zre * zre, s);
    lemma_fundamental_div_mod(zim * zim, s);
    lemma_mod_division_less_than_divisor(zre * zre, s);
    lemma_mod_division_less_than_divisor(zim * zim, s);
    assert(zre * zre <= 4 * s * s + s);
    assert(zim * zim <= 4 * s * s + s);
    assert(-(3 * s) <= zre <= 3 * s) by (nonlinear_arith)
        requires
            zre * zre <= 4 * s * s + s,
            s == SCALE as int,
    ;
    assert(-(3 * s) <= zim <= 3 * s) by (nonlinear_arith)
        requires
            zim * zim <= 4 * s * s + s,
            s == SCALE as int,
    ;
    lemma_mul_magnitude(zre, zim, 3 * s, 3 * s);
    lemma_fx_scale_magnitude(zre * zim, 9 * s * s);
    lemma_fx_scale_magnitude(zim * zre, 9 * s * s);
    assert((9 * s * s) / s == 9 * s) by (nonlinear_arith)
        requires
            s == SCALE as int,
    ;
}

/// Runs the escape loop for one point of the plane and encodes the
/// intensity byte, exactly as `intensity_spec` states.
pub fn escape_time(c: Z, max_iters: usize) -> (r: u8)
    requires
        -COORD_LIMIT <= c.re <= COORD_LIMIT,
        -COORD_LIMIT <= c.im <= COORD_LIMIT,
    ensures
        r == intensity_spec(c.re as int, c.im as int, max_iters as nat),
{
    let mut z = Z::new(0, 0);
    let mut i: usize = 0;
    while i < max_iters && z.norm_sqr() <= ESCAPE_RADIUS_SQ
        invariant
            i <= max_iters,
            -Z_ITER_LIMIT <= z.re <= Z_ITER_LIMIT,
            -Z_ITER_LIMIT <= z.im <= Z_ITER_LIMIT,
            -COORD_LIMIT <= c.re <= COORD_LIMIT,
            -COORD_LIMIT <= c.im <= COORD_LIMIT,
            escape_iters_spec(c.re as int, c.im as int, max_iters as nat) == i + escape_steps(
                z.re as int,
                z.im as int,
                c.re as int,
                c.im as int,
                (max_iters - i) as nat,
            ),
        decreases max_iters - i,
    {
        proof {
            lemma_step_bounded(z.re as int, z.im as int, c.re as int, c.im as int);
        }
        let zz = z.mul(z);
        z = zz.add(c);
        i = i + 1;
    }
    ((max_iters - i) % 256) as u8
}

} // verus!
