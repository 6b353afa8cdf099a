//! The accelerator-offload backend: the per-pixel kernel is compiled for
//! and dispatched to an external parallel device, and the result buffer is
//! read back into host memory.
//!
//! Device enumeration, kernel compilation, and dispatch are work no
//! verified function can perform, so this backend is a verified state
//! machine driven by the host program: each transition takes the outcome
//! of the device interaction as a plain value and decides what follows.
//! The offload kernel computes in device floating point, so its buffer is
//! expected to agree closely but not bit-exactly with the host backends
//! near escape boundaries; this backend therefore validates the shape of
//! the readback, not its bytes.

use vstd::prelude::*;

verus! {

use crate::strategy::ComputationParams;
use crate::strategy::ComputeError;

/// Everything the host needs to compile and dispatch one kernel run: the
/// 2-D work-item grid, the iteration budget, the viewport edges in raw
/// fixed-point units, and the size of the device-side output buffer.
#[derive(Clone, Copy, Debug, PartialEq, Eq, Structural)]
pub struct KernelPlan {
    /// Work items along the real axis: one per pixel column.
    pub width: u32,
    /// Work items along the imaginary axis: one per pixel row.
    pub height: u32,
    /// Iteration budget for the escape loop.
    pub max_iters: usize,
    /// Left viewport edge, in raw fixed-point units.
    pub xmin: i64,
    /// Right viewport edge, in raw fixed-point units.
    pub xmax: i64,
    /// Top viewport edge, in raw fixed-point units.
    pub ymin: i64,
    /// Bottom viewport edge, in raw fixed-point units.
    pub ymax: i64,
    /// Bytes in the device-side output buffer: one per pixel.
    pub buffer_len: usize,
}

impl KernelPlan {
    /// The plan an initialized accelerator strategy derives from its
    /// parameters.
    pub open spec fn plan_for(p: ComputationParams) -> KernelPlan {
        KernelPlan {
            width: p.width,
            height: p.height,
            max_iters: p.max_iters,
            xmin: p.upper_left.re,
            xmax: p.lower_right.re,
            ymin: p.upper_left.im,
            ymax: p.lower_right.im,
            buffer_len: (p.width * p.height) as usize,
        }
    }
}

/// Accelerator-offload computation strategy: selects a device, has the
/// host compile and dispatch the kernel, and validates the readback.
pub struct MandelbrotOcl {
    platform: usize,
    params: Option<ComputationParams>,
    prepared: bool,
}

impl MandelbrotOcl {
    /// The device index this strategy was told to run on.
    pub closed spec fn platform_spec(&self) -> nat {
        self.platform as nat
    }

    /// The parameters stored by `init`, if `init` has been called.
    pub closed spec fn params_spec(&self) -> Option<ComputationParams> {
        self.params
    }

    /// Whether `setup` has selected the device and derived a kernel plan.
    pub closed spec fn prepared_spec(&self) -> bool {
        self.prepared
    }

    /// A strategy that will select the device with the given index, with
    /// no parameters stored yet.
    pub fn new(platform: usize) -> (r: Self)
        ensures
            r.platform_spec() == platform as nat,
            r.params_spec() is None,
            !r.prepared_spec(),
    {
        MandelbrotOcl { platform, params: None, prepared: false }
    }

    /// Reports the backend's identity; the host appends the enumerated
    /// devices, since only it can see them.
    pub fn dump_info(&self) -> (r: &'static str)
        ensures
            r@ == "MandelbrotOCL computation info: Parallelized using OpenCL."@,
    {
        "MandelbrotOCL computation info: Parallelized using OpenCL."
    }

    /// Stores an owned copy of the parameters; any earlier device
    /// selection is discarded.
    pub fn init(&mut self, params: &ComputationParams) -> (r: Result<(), ComputeError>)
        ensures
            r is Ok,
            final(self).params_spec() == Some(*params),
            final(self).platform_spec() == old(self).platform_spec(),
            !final(self).prepared_spec(),
    {
        self.params = Some(*params);
        self.prepared = false;
        Ok(())
    }

    /// Selects the device by index among the `device_count` devices the
    /// host enumerated, validates the viewport, and derives the kernel
    /// plan the host must compile and dispatch.
    ///
    /// Fails with `DeviceNotFound` when the index is out of range and with
    /// `InvalidRegion` when the viewport is malformed; either failure
    /// leaves the strategy exactly as it was, so no partial preparation
    /// can be observed.
    pub fn setup(&mut self, device_count: usize) -> (r: Result<KernelPlan, ComputeError>)
        requires
            old(self).params_spec() is Some,
        ensures
            final(self).params_spec() == old(self).params_spec(),
            final(self).platform_spec() == old(self).platform_spec(),
            ({
                let p = old(self).params_spec().unwrap();
                &&& old(self).platform_spec() >= device_count ==> r == Result::<
                    KernelPlan,
                    ComputeError,
                >::Err(ComputeError::DeviceNotFound) && *final(self) == *old(self)
                &&& old(self).platform_spec() < device_count && !p.region_valid() ==> r == Result::<
                    KernelPlan,
                    ComputeError,
                >::Err(ComputeError::InvalidRegion) && *final(self) == *old(self)
                &&& old(self).platform_spec() < device_count && p.region_valid() ==> r == Result::<
                    KernelPlan,
                    ComputeError,
                >::Ok(KernelPlan::plan_for(p)) && final(self).prepared_spec()
            }),
    {
        let params = match self.params {
            Some(p) => p,
            None => {
                return Err(ComputeError::Uninitialized);
            },
        };
        if self.platform >= device_count {
            return Err(ComputeError::DeviceNotFound);
        }
        if !crate::field_map::region_check(
            params.upper_left,
            params.lower_right,
            params.width as usize,
            params.height as usize,
        ) {
            return Err(ComputeError::InvalidRegion);
        }
        let plan = KernelPlan {
            width: params.width,
            height: params.height,
            max_iters: params.max_iters,
            xmin: params.upper_left.re,
            xmax: params.lower_right.re,
            ymin: params.upper_left.im,
            ymax: params.lower_right.im,
            buffer_len: (params.width as usize) * (params.height as usize),
        };
        self.prepared = true;
        Ok(plan)
    }

    /// Accepts the buffer the host read back from the device after
    /// dispatching the planned kernel, and validates its shape: exactly
    /// one byte per pixel.
    ///
    /// Fails with `DeviceError` when the readback has the wrong length;
    /// the buffer is returned unchanged otherwise.
    pub fn compute(&self, readback: Vec<u8>) -> (r: Result<Vec<u8>, ComputeError>)
        requires
            self.params_spec() is Some,
            self.prepared_spec(),
        ensures
            ({
                let p = self.params_spec().unwrap();
                &&& r is Ok <==> readback@.len() == p.area()
                &&& r is Ok ==> r->Ok_0 == readback
                &&& r is Err ==> r->Err_0 == ComputeError::DeviceError
            }),
    {
        match &self.params {
            None => Err(ComputeError::Uninitialized),
            Some(params) => {
                proof {
                    vstd::arithmetic::mul::lemma_mul_nonnegative(
                        params.width as int,
                        params.height as int,
                    );
                    vstd::arithmetic::mul::lemma_mul_upper_bound(
                        params.width as int,
                        u32::MAX as int,
                        params.height as int,
                        u32::MAX as int,
                    );
                }
                let expected: u128 = (params.width as u128) * (params.height as u128);
                if (readback.len() as u128) == expected {
                    Ok(readback)
                } else {
                    Err(ComputeError::DeviceError)
                }
            },
        }
    }
}

} // verus!
