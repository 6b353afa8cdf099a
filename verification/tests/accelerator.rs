use mandelbrot::complex::Z;
use mandelbrot::compute_ocl::MandelbrotOcl;
use mandelbrot::fixed::SCALE;
use mandelbrot::strategy::ComputationParams;
use mandelbrot::strategy::ComputeError;

fn params() -> ComputationParams {
    ComputationParams {
        width: 4,
        height: 3,
        max_iters: 25,
        upper_left: Z::new(-2 * SCALE, SCALE),
        lower_right: Z::new(SCALE, -SCALE),
    }
}

#[test]
fn out_of_range_device_index_fails() {
    let p = params();
    let mut ocl = MandelbrotOcl::new(2);
    ocl.init(&p).expect("init failed");
    // Only two devices were enumerated, so index 2 is out of range; the
    // strategy stays unprepared and no partial computation happens.
    assert_eq!(ocl.setup(2).err(), Some(ComputeError::DeviceNotFound));
    assert_eq!(ocl.setup(0).err(), Some(ComputeError::DeviceNotFound));
}

#[test]
fn setup_derives_the_kernel_plan() {
    let p = params();
    let mut ocl = MandelbrotOcl::new(1);
    ocl.init(&p).expect("init failed");
    let plan = ocl.setup(2).expect("setup failed");
    assert_eq!(plan.width, 4);
    assert_eq!(plan.height, 3);
    assert_eq!(plan.max_iters, 25);
    assert_eq!(plan.xmin, -2 * SCALE);
    assert_eq!(plan.xmax, SCALE);
    assert_eq!(plan.ymin, SCALE);
    assert_eq!(plan.ymax, -SCALE);
    assert_eq!(plan.buffer_len, 12);
}

#[test]
fn setup_rejects_invalid_region() {
    let mut p = params();
    p.width = 0;
    let mut ocl = MandelbrotOcl::new(0);
    ocl.init(&p).expect("init failed");
    assert_eq!(ocl.setup(1).err(), Some(ComputeError::InvalidRegion));
}

#[test]
fn device_index_checked_before_region() {
    let mut p = params();
    p.width = 0;
    let mut ocl = MandelbrotOcl::new(5);
    ocl.init(&p).expect("init failed");
    assert_eq!(ocl.setup(1).err(), Some(ComputeError::DeviceNotFound));
}

#[test]
fn compute_accepts_a_full_readback() {
    let p = params();
    let mut ocl = MandelbrotOcl::new(0);
    ocl.init(&p).expect("init failed");
    let plan = ocl.setup(1).expect("setup failed");
    let readback = vec![7u8; plan.buffer_len];
    assert_eq!(ocl.compute(readback.clone()), Ok(readback));
}

#[test]
fn compute_rejects_a_short_readback() {
    let p = params();
    let mut ocl = MandelbrotOcl::new(0);
    ocl.init(&p).expect("init failed");
    ocl.setup(1).expect("setup failed");
    let readback = vec![7u8; 5];
    assert_eq!(ocl.compute(readback), Err(ComputeError::DeviceError));
}

#[test]
fn accelerator_reports_its_identity() {
    let ocl = MandelbrotOcl::new(0);
    assert_eq!(ocl.dump_info(), "MandelbrotOCL computation info: Parallelized using OpenCL.");
    assert_eq!(ComputeError::DeviceNotFound.describe(), "accelerator device index out of range");
    assert_eq!(ComputeError::DeviceError.describe(), "accelerator device failure");
}
