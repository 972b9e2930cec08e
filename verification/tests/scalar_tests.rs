use kexedit::scalar::{MACHINE_EPSILON_BITS, ONE_BITS, SIGN_BIT, ZERO_BITS};
use kexedit::Scalar;

fn s(x: f32) -> Scalar {
    Scalar::from_bits(x.to_bits())
}

fn samples() -> Vec<f32> {
    let mut v = vec![
        0.0,
        -0.0,
        1.0,
        -1.0,
        0.5,
        -0.5,
        1e-3,
        -1e-3,
        1e-4,
        1.192_093e-7,
        f32::EPSILON,
        f32::MIN_POSITIVE,
        -f32::MIN_POSITIVE,
        f32::from_bits(1),
        f32::from_bits(0x8000_0001),
        3.0,
        10.0,
        79.41995,
        std::f32::consts::PI,
        -std::f32::consts::PI,
        f32::MAX,
        f32::MIN,
        f32::INFINITY,
        f32::NEG_INFINITY,
        f32::NAN,
        -f32::NAN,
        f32::from_bits(0x7f80_0001),
        f32::from_bits(0xffff_ffff),
    ];
    let mut bits: u32 = 0x1234_5678;
    for _ in 0..200 {
        bits = bits.wrapping_mul(1_664_525).wrapping_add(1_013_904_223);
        v.push(f32::from_bits(bits));
    }
    v
}

#[test]
fn ordering_agrees_with_the_machine() {
    let v = samples();
    for &a in &v {
        for &b in &v {
            assert_eq!(s(a).lt(s(b)), a < b, "{:?} < {:?}", a, b);
            assert_eq!(s(a).le(s(b)), a <= b, "{:?} <= {:?}", a, b);
            assert_eq!(s(a).gt(s(b)), a > b, "{:?} > {:?}", a, b);
            assert_eq!(s(a).ge(s(b)), a >= b, "{:?} >= {:?}", a, b);
            assert_eq!(s(a).same_value(s(b)), a == b, "{:?} == {:?}", a, b);
        }
    }
}

#[test]
fn sign_operations_agree_with_the_machine() {
    for a in samples() {
        assert_eq!(s(a).neg().to_bits(), (-a).to_bits());
        assert_eq!(s(a).abs().to_bits(), a.abs().to_bits());
        assert_eq!(s(a).is_nan(), a.is_nan());
        assert_eq!(s(a).is_finite(), a.is_finite());
        assert_eq!(s(a).is_sign_negative(), a.is_sign_negative());
        assert_eq!(s(a).neg().neg(), s(a));
    }
}

#[test]
fn clamp_agrees_with_the_machine() {
    let bounds = [(1e-3f32, 1.0f32), (-1.0, 1.0), (0.0, 0.0), (-0.0, 0.0), (-5.0, -2.0)];
    for a in samples() {
        for (lo, hi) in bounds {
            let got = s(a).clamp(s(lo), s(hi));
            let want = a.clamp(lo, hi);
            if want.is_nan() {
                assert!(got.is_nan());
                assert_eq!(got, s(a));
            } else {
                assert_eq!(f32::from_bits(got.to_bits()), want, "{:?} in [{:?}, {:?}]", a, lo, hi);
            }
        }
    }
}

#[test]
fn named_encodings() {
    assert_eq!(ZERO_BITS, 0.0f32.to_bits());
    assert_eq!(ONE_BITS, 1.0f32.to_bits());
    assert_eq!(SIGN_BIT, (-0.0f32).to_bits());
    assert_eq!(MACHINE_EPSILON_BITS, f32::EPSILON.to_bits());
    assert_eq!(kexedit::scalar::INFINITY_BITS, f32::INFINITY.to_bits());
    assert_eq!(s(2.5).to_bits(), 0x4020_0000);
    assert_eq!(Scalar::from_bits(0x4020_0000), s(2.5));
}

#[test]
fn zeros_and_nan_edge_cases() {
    assert!(!s(-0.0).lt(s(0.0)));
    assert!(s(-0.0).le(s(0.0)));
    assert!(s(0.0).le(s(-0.0)));
    assert!(s(-0.0).same_value(s(0.0)));
    assert_ne!(s(-0.0), s(0.0));
    assert!(!s(f32::NAN).same_value(s(f32::NAN)));
    assert!(!s(f32::NAN).le(s(f32::NAN)));
    assert!(s(f32::NEG_INFINITY).lt(s(f32::MIN)));
    assert!(s(f32::MAX).lt(s(f32::INFINITY)));
    assert!(s(-1e-3).lt(s(f32::from_bits(1))));
}
