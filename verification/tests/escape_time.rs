use mandelbrot::complex::Complex;
use mandelbrot::escape::evaluate;

// One plane unit in fixed-point coordinates.
const UNIT: i64 = 65536;

#[test]
fn origin_never_escapes() {
    assert_eq!(evaluate(Complex::new(0, 0), 128), 128);
    assert_eq!(evaluate(Complex::new(0, 0), 100), 100);
}

#[test]
fn far_point_escapes_at_iteration_zero() {
    // c = (5, 0): the squared magnitude of c itself, 25, exceeds 4 on the
    // very first check after z = 0 * 0 + c.
    assert_eq!(evaluate(Complex::new(5 * UNIT, 0), 128), 0);
    assert_eq!(evaluate(Complex::new(5 * UNIT, 0), 1), 0);
}

#[test]
fn minus_one_cycles_and_stays_bounded() {
    // c = (-1, 0): the orbit cycles between -1 and 0, magnitude at most 1.
    assert_eq!(evaluate(Complex::new(-UNIT, 0), 128), 128);
    assert_eq!(evaluate(Complex::new(-UNIT, 0), 100), 100);
}

#[test]
fn point_on_threshold_escapes_one_step_later() {
    // c = (2, 0): the first iterate has squared magnitude exactly 4, which
    // does not exceed the threshold; the second iterate is 6, which does.
    assert_eq!(evaluate(Complex::new(2 * UNIT, 0), 128), 1);
}

#[test]
fn count_is_never_above_the_cap() {
    let mut re: i64 = -2 * UNIT;
    while re <= 2 * UNIT {
        let mut im: i64 = -2 * UNIT;
        while im <= 2 * UNIT {
            for cap in [1usize, 7, 50] {
                assert!(evaluate(Complex::new(re, im), cap) <= cap);
            }
            im += UNIT / 2;
        }
        re += UNIT / 2;
    }
}

#[test]
fn smallest_cap_is_supported() {
    assert_eq!(evaluate(Complex::new(-UNIT, 0), 1), 1);
    assert_eq!(evaluate(Complex::new(0, 0), 1), 1);
}
