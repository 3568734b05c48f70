use measurement::{Measurement, PropagationError};

/// Rounds `x` to `decimals` digits counted from its most significant digit;
/// exactly zero, or zero digits, gives zero.
fn round(x: f64, decimals: u32) -> f64 {
    if x == 0. || decimals == 0 {
        0.
    } else {
        let shift = decimals as i32 - x.abs().log10().ceil() as i32;
        let shift_factor = 10_f64.powi(shift);
        (x * shift_factor).round() / shift_factor
    }
}

fn value_of(m: &Measurement) -> f64 {
    m.get_measurement() as f64 / m.get_scale() as f64
}

fn uncertainty_of(m: &Measurement) -> f64 {
    m.get_uncertainty() as f64 / m.get_scale() as f64
}

/// `m` stands for exactly `value / scale ± uncertainty / scale`.
fn is_exactly(m: &Measurement, value: i128, uncertainty: i128, scale: i128) -> bool {
    let s = m.get_scale() as i128;
    m.get_measurement() as i128 * scale == value * s && m.get_uncertainty() as i128 * scale == uncertainty * s
}

fn x() -> Measurement {
    Measurement::new(452, 2, 100)
}

fn y() -> Measurement {
    Measurement::new(200, 20, 100)
}

fn z() -> Measurement {
    Measurement::new(300, 60, 100)
}

#[test]
fn add() {
    let measurement = x().add(&y()).unwrap().add(&z()).unwrap();
    assert_eq!(value_of(&measurement), 9.52);
    assert_eq!(uncertainty_of(&measurement), 0.82);
}

#[test]
fn sub() {
    let measurement = x().subtract(&y()).unwrap().subtract(&z()).unwrap();
    assert_eq!(round(value_of(&measurement), 2), -0.48);
    assert_eq!(round(uncertainty_of(&measurement), 2), 0.82);
}

#[test]
fn mul() {
    let measurement = x().multiply(&y()).unwrap();
    assert_eq!(round(value_of(&measurement), 3), 9.04);
    assert_eq!(round(uncertainty_of(&measurement), 2), 0.94);
}

#[test]
fn div() {
    let measurement = y().divide(&z()).unwrap();
    assert_eq!(round(value_of(&measurement), 2), 0.67);
    assert_eq!(round(uncertainty_of(&measurement), 2), 0.2);
}

#[test]
fn chained_sum_is_exact() {
    let m = x().add(&y()).unwrap().add(&z()).unwrap();
    assert!(is_exactly(&m, 952, 82, 100));
    assert_eq!(m.get_scale(), 1_000_000);
}

#[test]
fn chained_difference_adds_uncertainties() {
    let m = x().subtract(&y()).unwrap().subtract(&z()).unwrap();
    assert!(is_exactly(&m, -48, 82, 100));
}

#[test]
fn product_is_exact() {
    let m = x().multiply(&y()).unwrap();
    assert_eq!(m.get_measurement(), 90400);
    assert_eq!(m.get_uncertainty(), 9440);
    assert_eq!(m.get_scale(), 10000);
}

#[test]
fn quotient_is_exact() {
    let m = y().divide(&z()).unwrap();
    assert!(is_exactly(&m, 10, 3, 15));
    assert!(is_exactly(&m, 6_000_000, 1_800_000, 9_000_000));
}

#[test]
fn product_of_opposite_signs_has_negative_uncertainty() {
    let a = Measurement::new(-2, 1, 1);
    let b = Measurement::new(3, 1, 1);
    let m = a.multiply(&b).unwrap();
    assert!(is_exactly(&m, -6, -5, 1));
}

#[test]
fn quotient_by_negative_divisor() {
    let a = Measurement::new(1, 1, 1);
    let b = Measurement::new(-2, 1, 1);
    let m = a.divide(&b).unwrap();
    assert!(m.get_scale() > 0);
    assert!(is_exactly(&m, -2, -3, 4));
}

#[test]
fn uncertainty_never_decreases_under_sum_and_difference() {
    let a = Measurement::new(7, 3, 10);
    let b = Measurement::new(-4, 1, 3);
    for m in [a.add(&b).unwrap(), a.subtract(&b).unwrap()] {
        let (u, s) = (m.get_uncertainty() as i128, m.get_scale() as i128);
        assert!(u * 10 >= 3 * s);
        assert!(u * 3 >= 1 * s);
        assert_eq!((u, s), (19, 30));
    }
}

#[test]
fn zero_magnitude_factor_is_reported() {
    let zero = Measurement::new(0, 5, 100);
    assert_eq!(zero.multiply(&y()).unwrap_err(), PropagationError::ZeroMagnitude);
    assert_eq!(y().multiply(&zero).unwrap_err(), PropagationError::ZeroMagnitude);
    assert_eq!(zero.divide(&y()).unwrap_err(), PropagationError::ZeroMagnitude);
    assert_eq!(y().divide(&zero).unwrap_err(), PropagationError::ZeroMagnitude);
}

#[test]
fn zero_value_is_fine_for_sum() {
    let zero = Measurement::new(0, 5, 100);
    let m = zero.add(&y()).unwrap();
    assert!(is_exactly(&m, 200, 25, 100));
}

#[test]
fn accessors_return_stored_values() {
    let m = Measurement::new(-17, 4, 9);
    for _ in 0..3 {
        assert_eq!(m.get_measurement(), -17);
        assert_eq!(m.get_uncertainty(), 4);
        assert_eq!(m.get_scale(), 9);
    }
}

#[test]
fn negative_uncertainty_is_propagated() {
    let a = Measurement::new(5, -1, 1);
    let b = Measurement::new(2, 3, 1);
    let m = a.add(&b).unwrap();
    assert!(is_exactly(&m, 7, 2, 1));
}

#[test]
fn sum_out_of_range() {
    let big = Measurement::new(i64::MAX, 0, 1);
    assert_eq!(big.add(&big).unwrap_err(), PropagationError::OutOfRange);
}

#[test]
fn difference_out_of_range() {
    let low = Measurement::new(i64::MIN, 0, 1);
    let one = Measurement::new(1, 0, 1);
    assert_eq!(low.subtract(&one).unwrap_err(), PropagationError::OutOfRange);
}

#[test]
fn scales_out_of_range() {
    let fine = Measurement::new(1, 0, u64::MAX);
    assert_eq!(fine.add(&fine).unwrap_err(), PropagationError::OutOfRange);
    assert_eq!(fine.multiply(&fine).unwrap_err(), PropagationError::OutOfRange);
}

#[test]
fn product_out_of_range() {
    let big = Measurement::new(i64::MAX, 1, 1);
    assert_eq!(big.multiply(&big).unwrap_err(), PropagationError::OutOfRange);
}

#[test]
fn quotient_out_of_range() {
    let big = Measurement::new(i64::MAX, 1, 1);
    let tiny = Measurement::new(1, 0, 1_000_000_000_000);
    assert_eq!(big.divide(&tiny).unwrap_err(), PropagationError::OutOfRange);
    let wide = Measurement::new(1 << 40, 0, 1);
    assert_eq!(wide.divide(&wide).unwrap_err(), PropagationError::OutOfRange);
}
