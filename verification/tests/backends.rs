use mandelbrot::complex::Z;
use mandelbrot::fixed::SCALE;
use mandelbrot::strategy::ComputationContext;
use mandelbrot::strategy::ComputationParams;
use mandelbrot::strategy::ComputationStrategy;
use mandelbrot::strategy::ComputeError;
use mandelbrot::strategy::StrategyKind;
use mandelbrot::compute_mono::MandelbrotMono;
use mandelbrot::compute_rayon::MandelbrotRayon;

fn square_params(side: u32, max_iters: usize) -> ComputationParams {
    ComputationParams {
        width: side,
        height: side,
        max_iters,
        upper_left: Z::new(-2 * SCALE, 2 * SCALE),
        lower_right: Z::new(2 * SCALE, -2 * SCALE),
    }
}

fn run_strategy<S: ComputationStrategy>(mut s: S, params: &ComputationParams) -> Vec<u8> {
    s.init(params).expect("init failed");
    s.setup().expect("setup failed");
    s.compute().expect("compute failed")
}

#[test]
fn scalar_and_parallel_identical() {
    let params = square_params(48, 64);
    let scalar = run_strategy(MandelbrotMono::new(), &params);
    let parallel = run_strategy(MandelbrotRayon::new(), &params);
    assert_eq!(scalar.len(), 48 * 48);
    assert_eq!(scalar, parallel);
}

#[test]
fn parallel_buffer_holds_computed_values() {
    // The corner pixel escapes at once and the center pixel never does,
    // so a backend that did not really evaluate the kernel cannot pass.
    let params = square_params(33, 50);
    let parallel = run_strategy(MandelbrotRayon::new(), &params);
    assert_eq!(parallel[0], 49);
    let center: usize = 16 * 33 + 16;
    assert_eq!(parallel[center], 0);
}

#[test]
fn quadrant_scenario() {
    let params = ComputationParams {
        width: 2,
        height: 2,
        max_iters: 10,
        upper_left: Z::new(-SCALE, SCALE),
        lower_right: Z::new(SCALE, -SCALE),
    };
    let values = run_strategy(MandelbrotMono::new(), &params);
    // The four sampled points are the quadrant corners (-1, 1), (0, 1),
    // (-1, 0) and (0, 0): only the first escapes (after 3 iterations),
    // the other three orbits stay bounded forever.
    assert_eq!(values, vec![7, 0, 0, 0]);
}

#[test]
fn escaping_point_gets_high_intensity() {
    let params = ComputationParams {
        width: 1,
        height: 1,
        max_iters: 10,
        upper_left: Z::new(2 * SCALE, 2 * SCALE),
        lower_right: Z::new(3 * SCALE, SCALE),
    };
    // The sampled point (2, 2) lies outside the escape radius, so one
    // iteration suffices: intensity 10 - 1 = 9.
    let values = run_strategy(MandelbrotMono::new(), &params);
    assert_eq!(values, vec![9]);
}

#[test]
fn intensity_wraps_modulo_256() {
    let params = ComputationParams {
        width: 1,
        height: 1,
        max_iters: 300,
        upper_left: Z::new(2 * SCALE, 2 * SCALE),
        lower_right: Z::new(3 * SCALE, SCALE),
    };
    // One iteration spent out of 300: (300 - 1) mod 256 = 43.
    let values = run_strategy(MandelbrotMono::new(), &params);
    assert_eq!(values, vec![43]);
}

#[test]
fn zero_budget_yields_all_zeros() {
    let params = square_params(8, 0);
    let values = run_strategy(MandelbrotMono::new(), &params);
    assert_eq!(values, vec![0u8; 64]);
    let parallel = run_strategy(MandelbrotRayon::new(), &params);
    assert_eq!(parallel, vec![0u8; 64]);
}

#[test]
fn host_setup_always_succeeds() {
    let params = square_params(4, 10);
    let mut mono = MandelbrotMono::new();
    mono.init(&params).expect("init failed");
    assert_eq!(mono.setup(), Ok(()));
    assert_eq!(mono.setup(), Ok(()));
    let mut rayon = MandelbrotRayon::new();
    rayon.init(&params).expect("init failed");
    assert_eq!(rayon.setup(), Ok(()));
    // Repeated setup changes nothing observable: compute still returns
    // the same buffer.
    let first = rayon.compute().expect("compute failed");
    rayon.setup().expect("re-setup failed");
    let second = rayon.compute().expect("compute failed");
    assert_eq!(first, second);
}

#[test]
fn compute_is_idempotent() {
    let params = square_params(16, 30);
    let mut s = MandelbrotMono::new();
    s.init(&params).expect("init failed");
    s.setup().expect("setup failed");
    let first = s.compute().expect("compute failed");
    s.setup().expect("re-setup failed");
    let second = s.compute().expect("recompute failed");
    assert_eq!(first, second);
}

#[test]
fn inverted_region_is_reported() {
    let mut params = square_params(8, 10);
    params.upper_left = Z::new(2 * SCALE, 2 * SCALE);
    params.lower_right = Z::new(-2 * SCALE, -2 * SCALE);
    let mut s = MandelbrotMono::new();
    s.init(&params).expect("init failed");
    s.setup().expect("setup failed");
    assert_eq!(s.compute(), Err(ComputeError::InvalidRegion));
}

#[test]
fn flat_region_is_reported() {
    let mut params = square_params(8, 10);
    params.lower_right = Z::new(2 * SCALE, 2 * SCALE);
    let mut s = MandelbrotRayon::new();
    s.init(&params).expect("init failed");
    s.setup().expect("setup failed");
    assert_eq!(s.compute(), Err(ComputeError::InvalidRegion));
}

#[test]
fn zero_resolution_is_reported() {
    let mut params = square_params(8, 10);
    params.width = 0;
    let mut s = MandelbrotMono::new();
    s.init(&params).expect("init failed");
    s.setup().expect("setup failed");
    assert_eq!(s.compute(), Err(ComputeError::InvalidRegion));
}

#[test]
fn context_delegates_and_times() {
    let params = square_params(16, 30);
    let mut ctx = ComputationContext::new(StrategyKind::Rayon(MandelbrotRayon::new()));
    assert_eq!(ctx.dump_info(), "MandelbrotRayon computation info: Parallelized using Rayon.");
    ctx.init(&params).expect("init failed");
    ctx.setup().expect("setup failed");
    let result = ctx.compute().expect("compute failed");
    assert_eq!(result.values, run_strategy(MandelbrotMono::new(), &params));
    // The elapsed duration is observational only; it is merely present.
    let _ = result.elapsed_time;
}

#[test]
fn context_reports_invalid_region() {
    let mut params = square_params(4, 10);
    params.width = 0;
    let mut ctx = ComputationContext::new(StrategyKind::Mono(MandelbrotMono::new()));
    assert_eq!(ctx.dump_info(), "MandelbrotMono computation info: Single core computation.");
    ctx.init(&params).expect("init failed");
    ctx.setup().expect("setup failed");
    let err = ctx.compute().err().expect("expected an error");
    assert_eq!(err, ComputeError::InvalidRegion);
    assert_eq!(err.describe(), "invalid viewport region");
}
