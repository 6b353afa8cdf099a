//! The scalar backend: one serial loop over every pixel, the baseline the
//! other backends are compared against.

use vstd::prelude::*;

verus! {

use vstd::arithmetic::div_mod::lemma_div_pos_is_pos;
use vstd::arithmetic::div_mod::lemma_mod_division_less_than_divisor;
use vstd::arithmetic::div_mod::lemma_multiply_divide_lt;
use crate::escape::escape_time;
use crate::field_map::FieldMap;
use crate::strategy::ComputationParams;
use crate::strategy::ComputationStrategy;
use crate::strategy::ComputeError;

/// The first `n` intensity bytes, built left to right the way a serial
/// loop fills the buffer.
pub open spec fn scalar_prefix(p: ComputationParams, n: nat) -> Seq<u8>
    decreases n,
{
    if n == 0 {
        Seq::empty()
    } else {
        scalar_prefix(p, (n - 1) as nat).push(p.pixel_at(n - 1))
    }
}

/// The output buffer as the scalar backend builds it: sequentially, one
/// appended byte per pixel.
pub open spec fn scalar_output(p: ComputationParams) -> Seq<u8> {
    scalar_prefix(p, p.area())
}

/// Building the buffer sequentially gives the same bytes as placing each
/// pixel's byte at its own index.
pub proof fn lemma_scalar_prefix_matches(p: ComputationParams, n: nat)
    ensures
        scalar_prefix(p, n) == Seq::new(n, |i: int| p.pixel_at(i)),
    decreases n,
{
    if n > 0 {
        lemma_scalar_prefix_matches(p, (n - 1) as nat);
        assert(scalar_prefix(p, n) =~= Seq::new(n, |i: int| p.pixel_at(i)));
    } else {
        assert(scalar_prefix(p, n) =~= Seq::new(n, |i: int| p.pixel_at(i)));
    }
}

/// A pixel of the map built for `p` is the point `p` assigns to that
/// index.
pub proof fn lemma_map_point_matches(p: ComputationParams, fm: FieldMap, i: int)
    requires
        p.region_valid(),
        fm.wf(),
        fm.re_resolution == p.width,
        fm.im_resolution == p.height,
        0 <= i < p.area(),
        forall|x: int|
            0 <= x < fm.re_resolution ==> #[trigger] fm.precomputed_re@[x]
                == crate::field_map::point_re_spec(p.upper_left.re as int, p.re_delta(), x),
        forall|y: int|
            0 <= y < fm.im_resolution ==> #[trigger] fm.precomputed_im@[y]
                == crate::field_map::point_im_spec(p.upper_left.im as int, p.im_delta(), y),
    ensures
        fm.point_spec(i) == p.point_at(i),
{
    lemma_mod_division_less_than_divisor(i, p.width as int);
    lemma_div_pos_is_pos(i, p.width as int);
    lemma_multiply_divide_lt(i, p.width as int, p.height as int);
}

/// Single-core computation strategy: a serial loop over the whole field.
pub struct MandelbrotMono {
    params: Option<ComputationParams>,
}

impl MandelbrotMono {
    /// A strategy with no parameters stored yet.
    pub fn new() -> (r: Self)
        ensures
            r.strategy_params() is None,
    {
        MandelbrotMono { params: None }
    }
}

impl ComputationStrategy for MandelbrotMono {
    closed spec fn strategy_params(&self) -> Option<ComputationParams> {
        self.params
    }

    open spec fn strategy_ready(&self) -> bool {
        true
    }

    open spec fn info_text(&self) -> Seq<char> {
        "MandelbrotMono computation info: Single core computation."@
    }

    fn dump_info(&self) -> (r: &'static str) {
        "MandelbrotMono computation info: Single core computation."
    }

    fn init(&mut self, params: &ComputationParams) -> (r: Result<(), ComputeError>) {
        self.params = Some(*params);
        Ok(())
    }

    fn setup(&mut self) -> (r: Result<(), ComputeError>) {
        Ok(())
    }

    #[verifier::loop_isolation(false)]
    fn compute(&self) -> (r: Result<Vec<u8>, ComputeError>) {
        match &self.params {
            None => Err(ComputeError::Uninitialized),
            Some(params) => {
                let fm = match FieldMap::new(
                    params.upper_left,
                    params.lower_right,
                    params.width as usize,
                    params.height as usize,
                ) {
                    Ok(fm) => fm,
                    Err(e) => {
                        return Err(e);
                    },
                };
                let limit = fm.get_limit();
                let mut values: Vec<u8> = Vec::new();
                let mut i: usize = 0;
                while i < limit
                    invariant
                        i <= limit,
                        values@ == scalar_prefix(*params, i as nat),
                    decreases limit - i,
                {
                    proof {
                        lemma_map_point_matches(*params, fm, i as int);
                    }
                    let point = fm.get_point(i);
                    let value = escape_time(point, params.max_iters);
                    values.push(value);
                    proof {
                        assert(values@ =~= scalar_prefix(*params, (i + 1) as nat));
                    }
                    i = i + 1;
                }
                proof {
                    lemma_scalar_prefix_matches(*params, params.area());
                    assert(Seq::new(params.area(), |j: int| params.pixel_at(j)) =~= params.image_seq());
                }
                Ok(values)
            },
        }
    }
}

} // verus!
