use story::binary64::{Binary64, EXPONENT_MASK, SIGN_MASK};

fn number(value: f64) -> Binary64 {
    Binary64::from_bits(value.to_bits())
}

fn samples() -> Vec<f64> {
    vec![
        0.0,
        -0.0,
        1.0,
        -1.0,
        0.1,
        -0.1,
        0.10000000000000009,
        f64::MIN_POSITIVE,
        -f64::MIN_POSITIVE,
        f64::from_bits(1),
        f64::from_bits(0x8000_0000_0000_0001),
        f64::from_bits(0x000f_ffff_ffff_ffff),
        f64::MAX,
        f64::MIN,
        f64::EPSILON,
        f64::INFINITY,
        f64::NEG_INFINITY,
        f64::NAN,
        -f64::NAN,
        f64::from_bits(0x7ff0_0000_0000_0001),
        f64::from_bits(0xfff0_0000_0000_0001),
        f64::from_bits(0x7fff_ffff_ffff_ffff),
        f64::from_bits(0xffff_ffff_ffff_ffff),
        999.0,
        110.0,
        100.0,
    ]
}

#[test]
fn bits_round_trip() {
    for value in samples() {
        assert_eq!(number(value).to_bits(), value.to_bits());
    }
    assert_eq!(Binary64::from_bits(0x3ff0_0000_0000_0000).to_bits(), 1.0f64.to_bits());
    assert_eq!(Binary64::from_bits(7), Binary64 { bits: 7 });
}

#[test]
fn masks_are_the_sign_and_the_exponent() {
    assert_eq!(SIGN_MASK, 1u64 << 63);
    assert_eq!(EXPONENT_MASK, 0x7ffu64 << 52);
    assert_eq!(SIGN_MASK & EXPONENT_MASK, 0);
    assert_eq!(SIGN_MASK, (-0.0f64).to_bits());
    assert_eq!(EXPONENT_MASK, f64::INFINITY.to_bits());
}

#[test]
fn is_nan_agrees_with_the_hardware() {
    for value in samples() {
        assert_eq!(number(value).is_nan(), value.is_nan(), "{:#018x}", value.to_bits());
    }
}

#[test]
fn is_zero_agrees_with_the_hardware() {
    for value in samples() {
        assert_eq!(number(value).is_zero(), value == 0.0, "{:#018x}", value.to_bits());
    }
}

#[test]
fn is_positive_agrees_with_the_hardware() {
    for value in samples() {
        assert_eq!(number(value).is_positive(), value > 0.0, "{:#018x}", value.to_bits());
    }
}

#[test]
fn is_negative_agrees_with_the_hardware() {
    for value in samples() {
        assert_eq!(number(value).is_negative(), value < 0.0, "{:#018x}", value.to_bits());
    }
}

#[test]
fn infinities_lie_on_their_side_of_zero() {
    assert!(number(f64::INFINITY).is_positive());
    assert!(!number(f64::INFINITY).is_negative());
    assert!(!number(f64::INFINITY).is_nan());
    assert!(number(f64::NEG_INFINITY).is_negative());
    assert!(!number(f64::NEG_INFINITY).is_positive());
    assert!(!number(f64::NEG_INFINITY).is_nan());
}

#[test]
fn nan_lies_on_no_side_of_zero() {
    for bits in [0x7ff8_0000_0000_0000u64, 0xfff8_0000_0000_0000, 0x7ff0_0000_0000_0001] {
        let nan = Binary64::from_bits(bits);
        assert!(nan.is_nan());
        assert!(!nan.is_zero());
        assert!(!nan.is_positive());
        assert!(!nan.is_negative());
    }
}

#[test]
fn both_zeros_are_zero() {
    assert!(number(0.0).is_zero());
    assert!(number(-0.0).is_zero());
    assert_eq!(number(-0.0).to_bits(), SIGN_MASK);
    assert!(!number(-0.0).is_negative());
    assert!(!number(0.0).is_positive());
}

#[test]
fn every_number_lies_on_at_most_one_side() {
    for value in samples() {
        let n = number(value);
        assert!(!(n.is_positive() && n.is_negative()));
        assert_eq!(!n.is_positive() && !n.is_negative(), n.is_zero() || n.is_nan());
    }
}
