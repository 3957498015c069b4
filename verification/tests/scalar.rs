use rtengine::scalar::Scalar;
use rtengine::vector::Vec3;

fn s(x: f32) -> Scalar {
    Scalar::from_bits(x.to_bits())
}

#[test]
fn lt_agrees_with_single_precision_order() {
    let samples: Vec<f32> = vec![
        0.0,
        -0.0,
        1.0,
        -1.0,
        f32::MIN_POSITIVE,
        -f32::MIN_POSITIVE,
        1.0e-45,
        -1.0e-45,
        f32::MAX,
        f32::MIN,
        f32::INFINITY,
        f32::NEG_INFINITY,
        f32::NAN,
        -f32::NAN,
        std::f32::consts::FRAC_PI_2,
        -std::f32::consts::FRAC_PI_2,
        1.5707962,
        90.0,
        1000.0,
    ];
    for &a in samples.iter() {
        for &b in samples.iter() {
            assert_eq!(s(a).lt(s(b)), a < b, "{} < {}", a, b);
        }
    }
}

#[test]
fn nan_patterns_are_recognised() {
    assert!(s(f32::NAN).is_nan_pattern());
    assert!(Scalar::from_bits(0x7f80_0001).is_nan_pattern());
    assert!(Scalar::from_bits(0xffff_ffff).is_nan_pattern());
    assert!(!s(f32::INFINITY).is_nan_pattern());
    assert!(!s(f32::NEG_INFINITY).is_nan_pattern());
    assert!(!s(0.0).is_nan_pattern());
}

#[test]
fn zero_and_one_have_their_patterns() {
    assert_eq!(f32::from_bits(Scalar::zero().to_bits()), 0.0);
    assert_eq!(f32::from_bits(Scalar::one().to_bits()), 1.0);
    assert_eq!(Scalar::one().to_bits(), 1.0f32.to_bits());
}

#[test]
fn le_agrees_with_single_precision_order() {
    let samples: Vec<f32> = vec![
        0.0,
        -0.0,
        2.5,
        -2.5,
        1.0e-45,
        -1.0e-45,
        f32::MAX,
        f32::MIN,
        f32::INFINITY,
        f32::NEG_INFINITY,
        f32::NAN,
    ];
    for &a in samples.iter() {
        for &b in samples.iter() {
            assert_eq!(s(a).le(s(b)), a <= b, "{} <= {}", a, b);
        }
    }
}

#[test]
fn min2_and_max2_pick_as_the_comparison_says() {
    assert_eq!(Scalar::min2(s(1.0), s(2.0)), s(1.0));
    assert_eq!(Scalar::min2(s(2.0), s(1.0)), s(1.0));
    assert_eq!(Scalar::max2(s(1.0), s(2.0)), s(2.0));
    assert_eq!(Scalar::max2(s(2.0), s(1.0)), s(2.0));
    assert_eq!(Scalar::min2(s(-3.0), s(-4.0)), s(-4.0));
    assert_eq!(Scalar::max2(s(-3.0), s(-4.0)), s(-3.0));
    assert_eq!(Scalar::min2(s(0.0), s(-0.0)).to_bits(), 0.0f32.to_bits());
    assert_eq!(Scalar::min2(s(-0.0), s(0.0)).to_bits(), (-0.0f32).to_bits());
    assert_eq!(Scalar::max2(s(0.0), s(-0.0)).to_bits(), 0.0f32.to_bits());
    assert_eq!(Scalar::min2(s(f32::NAN), s(1.0)), s(1.0));
    assert!(Scalar::min2(s(1.0), s(f32::NAN)).is_nan_pattern());
    assert_eq!(Scalar::max2(s(f32::NAN), s(1.0)), s(1.0));
    assert!(Scalar::max2(s(1.0), s(f32::NAN)).is_nan_pattern());
}

#[test]
fn vectors_take_minimum_and_maximum_by_component() {
    let a = Vec3::new(s(1.0), s(-5.0), s(0.25));
    let b = Vec3::new(s(-1.0), s(7.0), s(0.25));
    assert_eq!(Vec3::min2(a, b), Vec3::new(s(-1.0), s(-5.0), s(0.25)));
    assert_eq!(Vec3::max2(a, b), Vec3::new(s(1.0), s(7.0), s(0.25)));
}
