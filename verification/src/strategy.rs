//! Computation parameters, error kinds, and the pluggable strategy
//! capability shared by the computation backends.

use vstd::prelude::*;

verus! {

use crate::complex::Z;
use crate::escape::intensity_spec;
use crate::field_map::point_im_spec;
use crate::field_map::point_re_spec;
use crate::field_map::region_ok;

/// What can go wrong while configuring or running a computation.
///
/// `InvalidRegion` reports a malformed viewport; `Uninitialized` reports an
/// operation invoked before the required prior step; `DeviceNotFound` and
/// `DeviceError` report accelerator selection and dispatch failures, which
/// the caller may recover from by retrying with another backend.
#[derive(Clone, Copy, Debug, PartialEq, Eq, Structural)]
pub enum ComputeError {
    /// The viewport rectangle is degenerate, inverted, of zero resolution,
    /// outside the representable window of the plane, or so thin that an
    /// axis would span less than one raw fixed-point unit per pixel.
    InvalidRegion,
    /// A step was invoked before the step it depends on.
    Uninitialized,
    /// The requested accelerator device index is out of range of the
    /// enumerated devices.
    DeviceNotFound,
    /// The accelerator failed while compiling, dispatching, or reading
    /// back.
    DeviceError,
}

impl ComputeError {
    /// A short description of the error, for reporting by the caller.
    pub fn describe(&self) -> (r: &'static str)
        ensures
            r@ == self.describe_spec(),
    {
        match self {
            ComputeError::InvalidRegion => "invalid viewport region",
            ComputeError::Uninitialized => "computation step invoked before initialization",
            ComputeError::DeviceNotFound => "accelerator device index out of range",
            ComputeError::DeviceError => "accelerator device failure",
        }
    }

    /// The description returned by `describe`.
    pub open spec fn describe_spec(&self) -> Seq<char> {
        match self {
            ComputeError::InvalidRegion => "invalid viewport region"@,
            ComputeError::Uninitialized => "computation step invoked before initialization"@,
            ComputeError::DeviceNotFound => "accelerator device index out of range"@,
            ComputeError::DeviceError => "accelerator device failure"@,
        }
    }
}

/// Immutable per-run configuration: the pixel resolution, the iteration
/// budget, and the viewport corners on the complex plane.
#[derive(Clone, Copy, Debug)]
pub struct ComputationParams {
    /// Horizontal resolution in pixels.
    pub width: u32,
    /// Vertical resolution in pixels.
    pub height: u32,
    /// Iteration budget for the escape loop.
    pub max_iters: usize,
    /// Upper-left corner of the viewport.
    pub upper_left: Z,
    /// Lower-right corner of the viewport.
    pub lower_right: Z,
}

impl ComputationParams {
    /// Number of pixels in the output buffer.
    pub open spec fn area(self) -> nat {
        (self.width * self.height) as nat
    }

    /// The viewport describes a non-degenerate, non-inverted rectangle
    /// within the representable window, at a nonzero resolution that fits
    /// in one buffer.
    pub open spec fn region_valid(self) -> bool {
        region_ok(self.upper_left, self.lower_right, self.width as nat, self.height as nat)
    }

    /// Grid step along the real axis, in raw units.
    pub open spec fn re_delta(self) -> int {
        (self.lower_right.re - self.upper_left.re) / (self.width as int)
    }

    /// Grid step along the imaginary axis, in raw units.
    pub open spec fn im_delta(self) -> int {
        (self.upper_left.im - self.lower_right.im) / (self.height as int)
    }

    /// The point of the plane sampled for the linear pixel index `i`, in
    /// row-major order.
    pub open spec fn point_at(self, i: int) -> (int, int) {
        (
            point_re_spec(self.upper_left.re as int, self.re_delta(), i % (self.width as int)),
            point_im_spec(self.upper_left.im as int, self.im_delta(), i / (self.width as int)),
        )
    }

    /// The intensity byte computed for the linear pixel index `i`.
    pub open spec fn pixel_at(self, i: int) -> u8 {
        intensity_spec(self.point_at(i).0, self.point_at(i).1, self.max_iters as nat)
    }

    /// The full output buffer: one intensity byte per pixel, row-major.
    pub open spec fn image_seq(self) -> Seq<u8> {
        Seq::new(self.area(), |i: int| self.pixel_at(i))
    }
}

/// The capability set implemented by every computation backend that can run
/// entirely on the host: report an identity, take parameters, acquire
/// resources, and compute the intensity buffer.
pub trait ComputationStrategy: Sized {
    /// The parameters stored by `init`, if `init` has been called.
    spec fn strategy_params(&self) -> Option<ComputationParams>;

    /// Whether the resources `compute` relies on have been acquired.
    spec fn strategy_ready(&self) -> bool;

    /// The identity line returned by `dump_info`.
    spec fn info_text(&self) -> Seq<char>;

    /// Reports the backend's identity; never fails.
    fn dump_info(&self) -> (r: &'static str)
        ensures
            r@ == self.info_text(),
    ;

    /// Stores an owned copy of the parameters; allocates nothing yet.
    fn init(&mut self, params: &ComputationParams) -> (r: Result<(), ComputeError>)
        ensures
            r is Ok,
            final(self).strategy_params() == Some(*params),
            final(self).info_text() == old(self).info_text(),
    ;

    /// Acquires backend-specific resources.  Every host backend runs on
    /// resources it already owns, so for the implementors of this trait
    /// the step is a guaranteed-successful no-op that leaves the strategy
    /// untouched and ready.
    fn setup(&mut self) -> (r: Result<(), ComputeError>)
        requires
            old(self).strategy_params() is Some,
        ensures
            r is Ok,
            *final(self) == *old(self),
            final(self).strategy_ready(),
    ;

    /// Computes the intensity buffer for the stored parameters.
    ///
    /// Succeeds exactly on valid viewports, and then returns the one image
    /// the parameters determine; calling before `init` and `setup` is a
    /// caller contract violation, ruled out by the precondition.
    fn compute(&self) -> (r: Result<Vec<u8>, ComputeError>)
        requires
            self.strategy_params() is Some,
            self.strategy_ready(),
        ensures
            ({
                let p = self.strategy_params().unwrap();
                &&& r is Ok <==> p.region_valid()
                &&& r is Ok ==> r->Ok_0@ == p.image_seq()
                &&& r is Err ==> r->Err_0 == ComputeError::InvalidRegion
            }),
    ;
}

/// What one timed compute invocation hands back to the caller: the
/// intensity buffer and how long the computation took.
pub struct ComputationResult {
    /// One intensity byte per pixel, row-major.
    pub values: Vec<u8>,
    /// Elapsed wall-clock time of the compute phase.
    pub elapsed_time: core::time::Duration,
}

/// The closed set of host-runnable backends a context can be built over,
/// selected at run time.
pub enum StrategyKind {
    /// Single-threaded scalar backend.
    Mono(crate::compute_mono::MandelbrotMono),
    /// Data-parallel backend across the available cores.
    Rayon(crate::compute_rayon::MandelbrotRayon),
}

impl ComputationStrategy for StrategyKind {
    closed spec fn strategy_params(&self) -> Option<ComputationParams> {
        match self {
            StrategyKind::Mono(m) => m.strategy_params(),
            StrategyKind::Rayon(m) => m.strategy_params(),
        }
    }

    closed spec fn strategy_ready(&self) -> bool {
        match self {
            StrategyKind::Mono(m) => m.strategy_ready(),
            StrategyKind::Rayon(m) => m.strategy_ready(),
        }
    }

    closed spec fn info_text(&self) -> Seq<char> {
        match self {
            StrategyKind::Mono(m) => m.info_text(),
            StrategyKind::Rayon(m) => m.info_text(),
        }
    }

    fn dump_info(&self) -> (r: &'static str) {
        match self {
            StrategyKind::Mono(m) => m.dump_info(),
            StrategyKind::Rayon(m) => m.dump_info(),
        }
    }

    fn init(&mut self, params: &ComputationParams) -> (r: Result<(), ComputeError>) {
        match self {
            StrategyKind::Mono(m) => m.init(params),
            StrategyKind::Rayon(m) => m.init(params),
        }
    }

    fn setup(&mut self) -> (r: Result<(), ComputeError>) {
        match self {
            StrategyKind::Mono(m) => m.setup(),
            StrategyKind::Rayon(m) => m.setup(),
        }
    }

    fn compute(&self) -> (r: Result<Vec<u8>, ComputeError>) {
        match self {
            StrategyKind::Mono(m) => m.compute(),
            StrategyKind::Rayon(m) => m.compute(),
        }
    }
}

/// The caller-facing owner of one selected strategy: every operation
/// forwards to the held strategy, and the compute phase is additionally
/// wrapped in timing instrumentation.
pub struct ComputationContext {
    strategy: StrategyKind,
}

impl ComputationContext {
    /// The parameters stored in the held strategy, if any.
    pub closed spec fn strategy_params(&self) -> Option<ComputationParams> {
        self.strategy.strategy_params()
    }

    /// Whether the held strategy has acquired what `compute` relies on.
    pub closed spec fn strategy_ready(&self) -> bool {
        self.strategy.strategy_ready()
    }

    /// The identity line of the held strategy.
    pub closed spec fn info_text(&self) -> Seq<char> {
        self.strategy.info_text()
    }

    /// Takes exclusive ownership of the selected strategy.
    pub fn new(strategy: StrategyKind) -> (r: Self)
        ensures
            r.strategy_params() == strategy.strategy_params(),
            r.strategy_ready() == strategy.strategy_ready(),
            r.info_text() == strategy.info_text(),
    {
        ComputationContext { strategy }
    }

    /// Reports the identity of the held strategy; never fails.
    pub fn dump_info(&self) -> (r: &'static str)
        ensures
            r@ == self.info_text(),
    {
        self.strategy.dump_info()
    }

    /// Forwards the parameters to the held strategy.
    pub fn init(&mut self, params: &ComputationParams) -> (r: Result<(), ComputeError>)
        ensures
            r is Ok,
            final(self).strategy_params() == Some(*params),
            final(self).info_text() == old(self).info_text(),
    {
        self.strategy.init(params)
    }

    /// Has the held strategy acquire its resources: for the host
    /// strategies a context can hold, a guaranteed-successful no-op.
    pub fn setup(&mut self) -> (r: Result<(), ComputeError>)
        requires
            old(self).strategy_params() is Some,
        ensures
            r is Ok,
            *final(self) == *old(self),
            final(self).strategy_ready(),
    {
        self.strategy.setup()
    }

    /// Runs the held strategy's compute phase and reports the intensity
    /// buffer together with the elapsed time of the phase.
    pub fn compute(&self) -> (r: Result<ComputationResult, ComputeError>)
        requires
            self.strategy_params() is Some,
            self.strategy_ready(),
        ensures
            ({
                let p = self.strategy_params().unwrap();
                &&& r is Ok <==> p.region_valid()
                &&& r is Ok ==> r->Ok_0.values@ == p.image_seq()
                &&& r is Err ==> r->Err_0 == ComputeError::InvalidRegion
            }),
    {
        let start = std::time::Instant::now();
        let values = match self.strategy.compute() {
            Ok(values) => values,
            Err(e) => {
                return Err(e);
            },
        };
        let elapsed_time = start.elapsed();
        Ok(ComputationResult { values, elapsed_time })
    }
}

} // verus!
