use lox::values::number::Number;

fn n(value: f64) -> Number {
    Number::from_bits(value.to_bits())
}

fn samples() -> Vec<f64> {
    vec![
        0.0,
        -0.0,
        1.0,
        -1.0,
        0.5,
        -0.5,
        2.0,
        1e300,
        -1e300,
        5e-324,
        -5e-324,
        f64::MAX,
        f64::MIN,
        f64::INFINITY,
        f64::NEG_INFINITY,
        f64::NAN,
        -f64::NAN,
        3.141592653589793,
        42.0,
    ]
}

#[test]
fn order_agrees_with_doubles() {
    for a in samples() {
        for b in samples() {
            assert_eq!(n(a).less(&n(b)), a < b, "{} < {}", a, b);
            assert_eq!(n(a).greater(&n(b)), a > b, "{} > {}", a, b);
        }
    }
}

#[test]
fn equality_agrees_with_doubles() {
    for a in samples() {
        for b in samples() {
            assert_eq!(n(a).equals(&n(b)), a == b, "{} == {}", a, b);
        }
    }
}

#[test]
fn negation_agrees_with_doubles() {
    for a in samples() {
        assert_eq!(n(a).negate().to_bits(), (-a).to_bits(), "-{}", a);
        assert_eq!(n(a).negate().negate(), n(a));
    }
}

#[test]
fn zero_and_nan_tests_agree_with_doubles() {
    for a in samples() {
        assert_eq!(n(a).is_zero(), a == 0.0, "{}", a);
        assert_eq!(n(a).is_nan(), a.is_nan(), "{}", a);
        assert_eq!(n(a).is_negative(), a.is_sign_negative(), "{}", a);
    }
}

#[test]
fn bits_round_trip() {
    assert_eq!(n(1.0).to_bits(), 0x3ff0_0000_0000_0000);
    assert_eq!(Number::from_bits(7).to_bits(), 7);
}
