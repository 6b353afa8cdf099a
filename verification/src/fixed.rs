//! Exact fixed-point scalar arithmetic.
//!
//! A coordinate on either axis of the complex plane is held as a signed
//! 64-bit count of `1 / SCALE` units.  All backends compute on these raw
//! values with exact integer arithmetic, so the intensity of every pixel is
//! a deterministic function of the computation parameters alone.

use vstd::prelude::*;

verus! {

use vstd::arithmetic::div_mod::lemma_div_is_ordered;
use vstd::arithmetic::mul::lemma_mul_upper_bound;
use vstd::arithmetic::mul::lemma_mul_nonnegative;

/// Number of raw units in one unit of the complex plane: a raw value `v`
/// stands for the real number `v / SCALE`.
pub const SCALE: i64 = 0x1_0000_0000;

/// Largest raw magnitude the fixed-point multiplier accepts.
pub const FX_ARG_LIMIT: i64 = 64 * SCALE;

/// Largest raw magnitude accepted for a viewport corner coordinate: the
/// representable window of the plane is 16 units wide on each side of the
/// origin, which comfortably contains the escape disk of radius 2.
pub const COORD_LIMIT: i64 = 16 * SCALE;

/// Largest raw magnitude the fixed-point multiplier can return:
/// `(64 * SCALE)^2 / SCALE`.
pub const FX_RESULT_LIMIT: i64 = 4096 * SCALE;

/// Scales a double-width product back down to raw units, rounding toward
/// zero.
pub open spec fn fx_scale_down(p: int) -> int {
    if p >= 0 {
        p / (SCALE as int)
    } else {
        -((-p) / (SCALE as int))
    }
}

/// The fixed-point product of two raw values.
pub open spec fn fx_mul_spec(a: int, b: int) -> int {
    fx_scale_down(a * b)
}

/// Multiplies two raw fixed-point values exactly as `fx_mul_spec` states:
/// the double-width product is formed on unsigned magnitudes and scaled
/// back down toward zero.
pub fn fx_mul(a: i64, b: i64) -> (r: i64)
    requires
        -FX_ARG_LIMIT <= a <= FX_ARG_LIMIT,
        -FX_ARG_LIMIT <= b <= FX_ARG_LIMIT,
    ensures
        r == fx_mul_spec(a as int, b as int),
        -FX_RESULT_LIMIT <= r <= FX_RESULT_LIMIT,
{
    let neg: bool = (a < 0) != (b < 0);
    let ma: u64 = if a < 0 { (-a) as u64 } else { a as u64 };
    let mb: u64 = if b < 0 { (-b) as u64 } else { b as u64 };
    proof {
        assert(ma == abs_spec(a as int));
        assert(mb == abs_spec(b as int));
        lemma_mul_upper_bound(ma as int, FX_ARG_LIMIT as int, mb as int, FX_ARG_LIMIT as int);
        lemma_mul_nonnegative(ma as int, mb as int);
    }
    let p: u128 = (ma as u128) * (mb as u128);
    let q: u128 = p / (SCALE as u128);
    proof {
        lemma_div_is_ordered(
            p as int,
            (FX_ARG_LIMIT * FX_ARG_LIMIT) as int,
            SCALE as int,
        );
        lemma_abs_product(a as int, b as int);
    }
    if neg {
        -(q as i64)
    } else {
        q as i64
    }
}

/// The magnitude of a raw value.
pub open spec fn abs_spec(v: int) -> int {
    if v >= 0 {
        v
    } else {
        -v
    }
}

/// A fixed-point square is never negative.
pub proof fn lemma_fx_square_nonnegative(a: int)
    ensures
        fx_mul_spec(a, a) >= 0,
{
    assert(a * a >= 0) by (nonlinear_arith);
    vstd::arithmetic::div_mod::lemma_div_pos_is_pos(a * a, SCALE as int);
}

/// The magnitude of a product is the product of the magnitudes, and its
/// sign is determined by the signs of the factors.
proof fn lemma_abs_product(a: int, b: int)
    by (nonlinear_arith)
    ensures
        abs_spec(a * b) == abs_spec(a) * abs_spec(b),
        ((a < 0) != (b < 0)) ==> a * b <= 0,
        ((a < 0) == (b < 0)) ==> a * b >= 0,
{
}

} // verus!
