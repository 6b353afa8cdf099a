use mandelbrot::complex::Z;
use mandelbrot::field_map::FieldMap;
use mandelbrot::fixed::SCALE;
use mandelbrot::strategy::ComputeError;

#[test]
fn first_point_is_upper_left() {
    let ul = Z::new(-2 * SCALE, 3 * SCALE / 2);
    let lr = Z::new(SCALE, -SCALE);
    let fm = FieldMap::new(ul, lr, 640, 480).expect("field map rejected");
    assert_eq!(fm.get_limit(), 640 * 480);
    let first = fm.get_point(0);
    assert_eq!(first.re(), ul.re());
    assert_eq!(first.im(), ul.im());
}

#[test]
fn last_point_approaches_lower_right() {
    let ul = Z::new(-2 * SCALE, 3 * SCALE / 2);
    let lr = Z::new(SCALE, -SCALE);
    let width: usize = 640;
    let height: usize = 480;
    let fm = FieldMap::new(ul, lr, width, height).expect("field map rejected");
    let re_delta = (lr.re() - ul.re()) / width as i64;
    let im_delta = (ul.im() - lr.im()) / height as i64;
    let last = fm.get_point(width * height - 1);
    let re_gap = lr.re() - last.re();
    let im_gap = last.im() - lr.im();
    assert!(re_delta <= re_gap && re_gap < re_delta + width as i64);
    assert!(im_delta <= im_gap && im_gap < im_delta + height as i64);
}

#[test]
fn exact_grid_divides_evenly() {
    // A span of 2 over 2 pixels gives a whole grid step of 1.
    let ul = Z::new(-SCALE, SCALE);
    let lr = Z::new(SCALE, -SCALE);
    let fm = FieldMap::new(ul, lr, 2, 2).expect("field map rejected");
    assert_eq!(fm.get_limit(), 4);
    let points: Vec<(i64, i64)> = (0..4).map(|i| {
        let p = fm.get_point(i);
        (p.re(), p.im())
    }).collect();
    assert_eq!(
        points,
        vec![(-SCALE, SCALE), (0, SCALE), (-SCALE, 0), (0, 0)],
    );
}

#[test]
fn degenerate_viewports_are_rejected() {
    let ul = Z::new(-SCALE, SCALE);
    let lr = Z::new(SCALE, -SCALE);
    assert_eq!(FieldMap::new(ul, lr, 0, 4).err(), Some(ComputeError::InvalidRegion));
    assert_eq!(FieldMap::new(ul, lr, 4, 0).err(), Some(ComputeError::InvalidRegion));
    assert_eq!(FieldMap::new(lr, ul, 4, 4).err(), Some(ComputeError::InvalidRegion));
    assert_eq!(FieldMap::new(ul, ul, 4, 4).err(), Some(ComputeError::InvalidRegion));
    let far = Z::new(100 * SCALE, SCALE);
    assert_eq!(FieldMap::new(ul, far, 4, 4).err(), Some(ComputeError::InvalidRegion));
}

#[test]
fn sub_unit_grid_steps_are_rejected() {
    // A span of 100 raw units cannot feed 200 columns: the grid step
    // would collapse to zero, so the viewport is refused outright.
    let ul = Z::new(0, SCALE);
    let thin = Z::new(100, 0);
    assert_eq!(FieldMap::new(ul, thin, 200, 4).err(), Some(ComputeError::InvalidRegion));
    let flat = Z::new(SCALE, SCALE - 100);
    assert_eq!(FieldMap::new(ul, flat, 4, 200).err(), Some(ComputeError::InvalidRegion));
    // One raw unit per pixel is the accepted minimum.
    let exact = FieldMap::new(ul, Z::new(200, SCALE - 200), 200, 200).expect("field map rejected");
    let first = exact.get_point(0);
    let second = exact.get_point(1);
    assert_eq!(first.re() + 1, second.re());
}

#[test]
fn coordinate_tables_are_strictly_monotonic() {
    let ul = Z::new(-2 * SCALE, 3 * SCALE / 2);
    let lr = Z::new(SCALE, -SCALE);
    let width: usize = 640;
    let height: usize = 480;
    let fm = FieldMap::new(ul, lr, width, height).expect("field map rejected");
    for x in 1..width {
        assert!(fm.get_point(x - 1).re() < fm.get_point(x).re());
    }
    for y in 1..height {
        assert!(fm.get_point((y - 1) * width).im() > fm.get_point(y * width).im());
    }
}

#[test]
fn complex_arithmetic_matches_cartesian_form() {
    let a = Z::new(3 * SCALE, -2 * SCALE);
    let b = Z::new(-SCALE, 4 * SCALE);
    let sum = a.add(b);
    assert_eq!((sum.re(), sum.im()), (2 * SCALE, 2 * SCALE));
    // (3 - 2i) * (-1 + 4i) = (-3 + 8) + (12 + 2)i
    let prod = a.mul(b);
    assert_eq!((prod.re(), prod.im()), (5 * SCALE, 14 * SCALE));
    // |3 - 2i|^2 = 13
    assert_eq!(a.norm_sqr(), 13 * SCALE);
}
