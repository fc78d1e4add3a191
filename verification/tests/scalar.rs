use rayt::float3;
use rayt::float3::Float3;
use rayt::quat::Quat;
use rayt::scalar::Scalar;
use rayt::scalar::INFINITY_BITS;
use rayt::scalar::ONE_BITS;
use rayt::scalar::SIGN_BIT;

fn s(x: f64) -> Scalar {
    Scalar::from_bits(x.to_bits())
}

fn samples() -> Vec<f64> {
    vec![
        0.0,
        -0.0,
        1.0,
        -1.0,
        0.5,
        0.001,
        f64::MIN_POSITIVE,
        -f64::MIN_POSITIVE,
        5e-324,
        -5e-324,
        f64::MAX,
        f64::MIN,
        f64::INFINITY,
        f64::NEG_INFINITY,
        f64::NAN,
        -f64::NAN,
        f64::from_bits(0x7FF0_0000_0000_0001),
        f64::from_bits(0xFFFF_FFFF_FFFF_FFFF),
        2.2,
        -2.2,
        1e300,
        -1e-300,
        255.0,
    ]
}

#[test]
fn less_than_agrees_with_binary64() {
    for a in samples() {
        for b in samples() {
            assert_eq!(s(a).is_less_than(&s(b)), a < b, "{a} < {b}");
            assert_eq!(s(a).is_greater_than(&s(b)), a > b, "{a} > {b}");
            assert_eq!(s(a).is_at_most(&s(b)), a <= b, "{a} <= {b}");
            assert_eq!(s(a).is_same(&s(b)), a == b, "{a} == {b}");
        }
    }
}

#[test]
fn signs_agree_with_binary64() {
    for a in samples() {
        assert_eq!(s(a).is_positive(), a > 0.0, "{a} > 0");
        assert_eq!(s(a).is_negative(), a < 0.0, "{a} < 0");
        assert_eq!(s(a).is_zero(), a == 0.0, "{a} == 0");
        assert_eq!(s(a).is_not_a_number(), a.is_nan(), "{a} is NaN");
    }
}

#[test]
fn negation_agrees_with_binary64() {
    for a in samples() {
        assert_eq!(s(a).negated().to_bits(), (-a).to_bits(), "-({a})");
        assert_eq!(s(a).negated().negated(), s(a));
    }
}

#[test]
fn order_is_transitive_on_samples() {
    for a in samples() {
        for b in samples() {
            for c in samples() {
                if s(a).is_less_than(&s(b)) && s(b).is_less_than(&s(c)) {
                    assert!(s(a).is_less_than(&s(c)));
                }
            }
        }
    }
}

#[test]
fn constants_are_the_patterns_of_their_numbers() {
    assert_eq!(ONE_BITS, 1.0f64.to_bits());
    assert_eq!(INFINITY_BITS, f64::INFINITY.to_bits());
    assert_eq!(SIGN_BIT, (-0.0f64).to_bits());
    assert_eq!(Scalar::new_zero(), s(0.0));
    assert_eq!(Scalar::new_one(), s(1.0));
    assert_eq!(Scalar::new_infinity(), s(f64::INFINITY));
}

#[test]
fn bits_go_in_and_come_out() {
    assert_eq!(Scalar::from_bits(0x4001_9999_9999_999A).to_bits(), 0x4001_9999_9999_999A);
    assert_eq!(f64::from_bits(s(0.25).to_bits()), 0.25);
}

#[test]
fn zeros_are_equal_but_not_the_same_pattern() {
    assert!(s(0.0).is_same(&s(-0.0)));
    assert_ne!(s(0.0), s(-0.0));
    assert!(!s(-0.0).is_less_than(&s(0.0)));
}

#[test]
fn nan_is_beside_every_order() {
    let nan = s(f64::NAN);
    assert!(!nan.is_same(&nan));
    assert!(!nan.is_at_most(&nan));
    assert!(!nan.is_less_than(&s(f64::INFINITY)));
    assert!(!s(f64::NEG_INFINITY).is_less_than(&nan));
    assert_eq!(nan, nan);
}

#[test]
fn float3_constructors() {
    assert_eq!(float3::zero(), Float3 { x: s(0.0), y: s(0.0), z: s(0.0) });
    assert_eq!(float3::one(), Float3 { x: s(1.0), y: s(1.0), z: s(1.0) });
    assert_eq!(float3::white(), Float3 { x: s(1.0), y: s(1.0), z: s(1.0) });
    assert_eq!(float3::fill(s(0.73)), Float3 { x: s(0.73), y: s(0.73), z: s(0.73) });
    assert_eq!(
        float3::new(s(0.64), s(0.05), s(-3.0)),
        Float3 { x: s(0.64), y: s(0.05), z: s(-3.0) }
    );
}

#[test]
fn float3_negation_and_zero_components() {
    let v = float3::new(s(1.0), s(-2.0), s(0.0));
    assert_eq!(v.negated(), float3::new(s(-1.0), s(2.0), s(-0.0)));
    assert!(!v.is_nowhere_zero());
    assert!(!float3::new(s(1.0), s(-0.0), s(3.0)).is_nowhere_zero());
    assert!(!float3::new(s(0.0), s(1.0), s(3.0)).is_nowhere_zero());
    assert!(float3::new(s(100.0), s(140.0), s(100.0)).is_nowhere_zero());
    assert!(float3::new(s(5e-324), s(-140.0), s(f64::NAN)).is_nowhere_zero());
}

#[test]
fn quat_constructors_and_parts() {
    let q = Quat::new(s(0.1), s(0.2), s(0.3), s(0.4));
    assert_eq!(q.x(), s(0.1));
    assert_eq!(q.y(), s(0.2));
    assert_eq!(q.z(), s(0.3));
    assert_eq!(q.w(), s(0.4));
    assert_eq!(q.to_array(), [s(0.1), s(0.2), s(0.3), s(0.4)]);
    assert_eq!(Quat::unit().to_array(), [s(0.0), s(0.0), s(0.0), s(1.0)]);
    assert_eq!(Quat::zero().to_array(), [s(0.0), s(0.0), s(0.0), s(0.0)]);
    assert_eq!(Quat::half_turn_x().to_array(), [s(1.0), s(0.0), s(0.0), s(0.0)]);
    assert_eq!(Quat::half_turn_y().to_array(), [s(0.0), s(1.0), s(0.0), s(0.0)]);
}

#[test]
fn quat_conjugate_negates_the_vector_part() {
    let q = Quat::new(s(0.1), s(-0.2), s(0.3), s(0.4));
    assert_eq!(q.conj(), Quat::new(s(-0.1), s(0.2), s(-0.3), s(0.4)));
    assert_eq!(q.conj().conj(), q);
}
