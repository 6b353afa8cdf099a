//! The data-parallel backend: the same per-pixel kernel as the scalar
//! backend, fanned out across the available processor cores.
//!
//! Each linear index owns one slot of the output buffer, so the workers
//! write to disjoint positions and the result is independent of execution
//! order: the buffer is byte-identical to the scalar backend's.

use vstd::prelude::*;

use rayon::iter::IntoParallelIterator;
use rayon::iter::ParallelIterator;

verus! {

use crate::escape::escape_time;
use crate::escape::intensity_spec;
use crate::field_map::FieldMap;
use crate::strategy::ComputationParams;
use crate::strategy::ComputationStrategy;
use crate::strategy::ComputeError;
use crate::compute_mono::lemma_map_point_matches;

/// Relies on rayon's parallel iterator over an index range: `map` on an
/// indexed parallel iterator keeps each result at its index, and
/// `collect` into a `Vec` assembles the results in index order, so the
/// buffer equals the sequential map of the same closure.  The closure
/// itself only calls this library's verified per-pixel functions, and the
/// index range's end is computed by the verified caller.
#[verifier::external_body]
fn par_field_values(fm: &FieldMap, limit: usize, max_iters: usize) -> (r: Vec<u8>)
    requires
        fm.wf(),
        limit == fm.limit_spec(),
    ensures
        r@ == Seq::new(
            fm.limit_spec(),
            |i: int|
                intensity_spec(fm.point_spec(i).0, fm.point_spec(i).1, max_iters as nat),
        ),
{
    (0..limit).into_par_iter().map(|i| escape_time(fm.get_point(i), max_iters)).collect()
}

/// Builds the coordinate field for the given viewport and evaluates every
/// pixel concurrently, scattering the bytes into their own slots.
fn compute_parallel(
    width: u32,
    height: u32,
    max_iters: usize,
    upper_left: crate::complex::Z,
    lower_right: crate::complex::Z,
) -> (r: Result<Vec<u8>, ComputeError>)
    ensures
        ({
            let p = (ComputationParams { width, height, max_iters, upper_left, lower_right });
            &&& r is Ok <==> p.region_valid()
            &&& r is Ok ==> r->Ok_0@ == p.image_seq()
            &&& r is Err ==> r->Err_0 == ComputeError::InvalidRegion
        }),
{
    let fm = match FieldMap::new(upper_left, lower_right, width as usize, height as usize) {
        Ok(fm) => fm,
        Err(e) => {
            return Err(e);
        },
    };
    let limit = fm.get_limit();
    let values = par_field_values(&fm, limit, max_iters);
    proof {
        let p = (ComputationParams { width, height, max_iters, upper_left, lower_right });
        assert forall|i: int| 0 <= i < p.area() implies values@[i] == p.pixel_at(i) by {
            lemma_map_point_matches(p, fm, i);
        }
        assert(values@ =~= p.image_seq());
    }
    Ok(values)
}

/// Data-parallel computation strategy: a statically partitioned fan-out
/// over all available cores, joined before returning.
pub struct MandelbrotRayon {
    params: Option<ComputationParams>,
}

impl MandelbrotRayon {
    /// A strategy with no parameters stored yet.
    pub fn new() -> (r: Self)
        ensures
            r.strategy_params() is None,
    {
        MandelbrotRayon { params: None }
    }
}

impl ComputationStrategy for MandelbrotRayon {
    closed spec fn strategy_params(&self) -> Option<ComputationParams> {
        self.params
    }

    open spec fn strategy_ready(&self) -> bool {
        true
    }

    open spec fn info_text(&self) -> Seq<char> {
        "MandelbrotRayon computation info: Parallelized using Rayon."@
    }

    fn dump_info(&self) -> (r: &'static str) {
        "MandelbrotRayon computation info: Parallelized using Rayon."
    }

    fn init(&mut self, params: &ComputationParams) -> (r: Result<(), ComputeError>) {
        self.params = Some(*params);
        Ok(())
    }

    fn setup(&mut self) -> (r: Result<(), ComputeError>) {
        Ok(())
    }

    fn compute(&self) -> (r: Result<Vec<u8>, ComputeError>) {
        match &self.params {
            None => Err(ComputeError::Uninitialized),
            Some(params) => compute_parallel(
                params.width,
                params.height,
                params.max_iters,
                params.upper_left,
                params.lower_right,
            ),
        }
    }
}

} // verus!
