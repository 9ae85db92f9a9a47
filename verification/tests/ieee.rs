use tokamak_netcdf::ieee::{less_or_equal, nan, INFINITY, NAN, SIGN_BIT};

fn samples() -> Vec<f64> {
    vec![
        f64::NEG_INFINITY,
        f64::MIN,
        -1.0e300,
        -2.5,
        -1.0,
        -f64::MIN_POSITIVE,
        -5e-324,
        -0.0,
        0.0,
        5e-324,
        f64::MIN_POSITIVE,
        f64::EPSILON,
        0.2,
        0.5,
        1.0,
        1.0000000000000002,
        2.1,
        1.0e300,
        f64::MAX,
        f64::INFINITY,
        f64::NAN,
        -f64::NAN,
        f64::from_bits(0x7ff0_0000_0000_0001),
        f64::from_bits(0xffff_ffff_ffff_ffff),
    ]
}

#[test]
fn named_patterns_are_those_of_the_numbers() {
    assert_eq!(SIGN_BIT, (-0.0_f64).to_bits());
    assert_eq!(INFINITY, f64::INFINITY.to_bits());
    assert_eq!(NAN, f64::NAN.to_bits());
    assert!(f64::from_bits(NAN).is_nan());
}

#[test]
fn nan_agrees_with_the_numbers() {
    for x in samples() {
        assert_eq!(nan(x.to_bits()), x.is_nan(), "{x:?}");
    }
    assert!(!nan(0));
    assert!(!nan(INFINITY));
    assert!(nan(INFINITY + 1));
    assert!(nan(u64::MAX));
    assert!(!nan(SIGN_BIT));
    assert!(!nan(SIGN_BIT + INFINITY));
    assert!(nan(SIGN_BIT + INFINITY + 1));
}

#[test]
fn less_or_equal_agrees_with_the_numbers() {
    for a in samples() {
        for b in samples() {
            assert_eq!(less_or_equal(a.to_bits(), b.to_bits()), a <= b, "{a:?} <= {b:?}");
        }
    }
}

#[test]
fn zeros_are_equal_whatever_their_sign() {
    assert!(less_or_equal(0, SIGN_BIT));
    assert!(less_or_equal(SIGN_BIT, 0));
    assert!(less_or_equal(0, 0));
    assert!(less_or_equal(SIGN_BIT, SIGN_BIT));
}

#[test]
fn not_a_number_compares_with_nothing() {
    for x in samples() {
        assert!(!less_or_equal(NAN, x.to_bits()));
        assert!(!less_or_equal(x.to_bits(), NAN));
    }
}

#[test]
fn exact_comparisons() {
    assert!(less_or_equal(0.2_f64.to_bits(), 0.5_f64.to_bits()));
    assert!(!less_or_equal(0.5_f64.to_bits(), 0.2_f64.to_bits()));
    assert!(less_or_equal((-0.5_f64).to_bits(), (-0.2_f64).to_bits()));
    assert!(!less_or_equal((-0.2_f64).to_bits(), (-0.5_f64).to_bits()));
    assert!(less_or_equal((-1.0_f64).to_bits(), 1.0_f64.to_bits()));
    assert!(!less_or_equal(1.0_f64.to_bits(), (-1.0_f64).to_bits()));
    assert!(!less_or_equal(5e-324_f64.to_bits(), (-0.0_f64).to_bits()));
    assert!(less_or_equal((-5e-324_f64).to_bits(), 0.0_f64.to_bits()));
}
