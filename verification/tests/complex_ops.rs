use mandelbrot::complex::Complex;

// One plane unit in fixed-point coordinates.
const UNIT: i64 = 65536;

#[test]
fn addition_is_componentwise() {
    // (1.5 - 2i) + (0.25 + 1i) == (1.75 - 1i)
    let a = Complex::new(3 * UNIT / 2, -2 * UNIT);
    let b = Complex::new(UNIT / 4, UNIT);
    let r = a.add(b);
    assert_eq!(r, Complex::new(7 * UNIT / 4, -UNIT));
}

#[test]
fn multiplication_follows_the_product_formula() {
    // (1 + i) * (1 + i) == 2i
    let one_one = Complex::new(UNIT, UNIT);
    assert_eq!(one_one.mul(one_one), Complex::new(0, 2 * UNIT));
    // (0.5) * (0.5) == 0.25, exactly representable
    let half = Complex::new(UNIT / 2, 0);
    assert_eq!(half.mul(half), Complex::new(UNIT / 4, 0));
}

#[test]
fn product_rescaling_truncates_toward_zero() {
    // The smallest positive and negative coordinates multiply to a magnitude
    // under one fixed-point unit, which truncates to zero from either side.
    let tiny_pos = Complex::new(1, 0);
    let tiny_neg = Complex::new(-1, 0);
    assert_eq!(tiny_pos.mul(tiny_pos), Complex::new(0, 0));
    assert_eq!(tiny_neg.mul(tiny_pos), Complex::new(0, 0));
}

#[test]
fn squared_magnitude_sums_the_squares() {
    assert_eq!(Complex::new(2 * UNIT, 0).squared_magnitude(), 4 * UNIT);
    assert_eq!(Complex::new(UNIT, UNIT).squared_magnitude(), 2 * UNIT);
    assert_eq!(Complex::new(-UNIT, 0).squared_magnitude(), UNIT);
    assert_eq!(Complex::new(0, 0).squared_magnitude(), 0);
}
