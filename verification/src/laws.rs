//! Properties the library guarantees as a whole, stated over the same
//! specification functions the components' contracts use.

use vstd::prelude::*;

verus! {

use vstd::arithmetic::div_mod::lemma_fundamental_div_mod;
use vstd::arithmetic::div_mod::lemma_fundamental_div_mod_converse;
use vstd::arithmetic::div_mod::lemma_mod_division_less_than_divisor;
use vstd::arithmetic::mul::lemma_mul_is_distributive_sub_other_way;
use crate::compute_mono::lemma_scalar_prefix_matches;
use crate::compute_mono::scalar_output;
use crate::strategy::ComputationParams;

/// Determinism and order-independence: for every parameter set, the
/// buffer the scalar backend builds sequentially and the buffer the
/// data-parallel backend scatters indexwise are byte-identical, so the
/// two backends' contracts pin the same output.
pub proof fn lemma_parallel_matches_scalar(p: ComputationParams)
    ensures
        scalar_output(p) == p.image_seq(),
{
    lemma_scalar_prefix_matches(p, p.area());
    assert(Seq::new(p.area(), |i: int| p.pixel_at(i)) =~= p.image_seq());
}

/// The first sampled point is exactly the upper-left viewport corner.
pub proof fn lemma_first_point_is_upper_left(p: ComputationParams)
    requires
        p.region_valid(),
    ensures
        p.point_at(0) == (p.upper_left.re as int, p.upper_left.im as int),
{
    lemma_fundamental_div_mod_converse(0, p.width as int, 0, 0);
}

/// The last sampled point approaches the lower-right viewport corner
/// within one grid step: its distance to the corner on each axis is the
/// grid step plus the sub-pixel residue the flooring division left, which
/// is smaller than one raw unit per pixel of resolution.
pub proof fn lemma_last_point_near_lower_right(p: ComputationParams)
    requires
        p.region_valid(),
    ensures
        ({
            let last = p.point_at(p.area() - 1);
            &&& p.re_delta() <= p.lower_right.re - last.0 < p.re_delta() + p.width
            &&& p.im_delta() <= last.1 - p.lower_right.im < p.im_delta() + p.height
        }),
{
    let w = p.width as int;
    let h = p.height as int;
    assert(w * h - 1 == (h - 1) * w + (w - 1)) by (nonlinear_arith);
    lemma_fundamental_div_mod_converse(w * h - 1, w, h - 1, w - 1);
    let re_span = p.lower_right.re - p.upper_left.re;
    let im_span = p.upper_left.im - p.lower_right.im;
    lemma_fundamental_div_mod(re_span, w);
    lemma_mod_division_less_than_divisor(re_span, w);
    lemma_fundamental_div_mod(im_span, h);
    lemma_mod_division_less_than_divisor(im_span, h);
    lemma_mul_is_distributive_sub_other_way(p.re_delta(), w, 1);
    lemma_mul_is_distributive_sub_other_way(p.im_delta(), h, 1);
}

/// Idempotence: the output buffer is a function of the parameters alone,
/// so recomputing with unchanged parameters yields the identical bytes.
pub proof fn lemma_compute_idempotent(p: ComputationParams, first: Seq<u8>, second: Seq<u8>)
    requires
        first == p.image_seq(),
        second == p.image_seq(),
    ensures
        first == second,
{
}

/// A zero iteration budget spends no budget anywhere, so under the
/// wrap-around intensity policy every pixel of the output buffer is zero.
pub proof fn lemma_zero_budget_all_zero(p: ComputationParams)
    requires
        p.max_iters == 0,
    ensures
        forall|i: int| 0 <= i < p.image_seq().len() ==> p.image_seq()[i] == 0,
{
}

} // verus!
