use xr_input::float_bits::{FloatBits, INFINITY_MAGNITUDE, ONE, SIGN_BIT, ZERO};

fn bits(value: f32) -> FloatBits {
    FloatBits::new(value.to_bits())
}

fn samples() -> Vec<f32> {
    vec![
        0.0,
        -0.0,
        1.0,
        -1.0,
        0.15,
        0.65,
        -0.65,
        999.0,
        f32::MIN_POSITIVE,
        -f32::MIN_POSITIVE,
        f32::from_bits(1),
        -f32::from_bits(1),
        f32::MAX,
        f32::MIN,
        f32::INFINITY,
        f32::NEG_INFINITY,
        f32::NAN,
        -f32::NAN,
        f32::from_bits(0x7f80_0001),
        f32::from_bits(0xffff_ffff),
    ]
}

#[test]
fn constants_are_the_bits_of_their_numbers() {
    assert_eq!(ZERO, 0.0f32.to_bits());
    assert_eq!(ONE, 1.0f32.to_bits());
    assert_eq!(SIGN_BIT, (-0.0f32).to_bits());
    assert_eq!(INFINITY_MAGNITUDE, f32::INFINITY.to_bits());
}

#[test]
fn new_keeps_the_bits() {
    assert_eq!(FloatBits::new(0x3f80_0000).bits, 0x3f80_0000);
}

#[test]
fn nan_is_recognised() {
    for value in samples() {
        assert_eq!(bits(value).is_nan(), value.is_nan(), "{value}");
    }
}

#[test]
fn comparisons_agree_with_the_machine() {
    for a in samples() {
        for b in samples() {
            assert_eq!(bits(a).less(bits(b)), a < b, "{a} < {b}");
            assert_eq!(bits(a).at_least(bits(b)), a >= b, "{a} >= {b}");
        }
    }
}

#[test]
fn zeros_are_equal_and_nan_compares_with_nothing() {
    assert!(bits(0.0).at_least(bits(-0.0)));
    assert!(bits(-0.0).at_least(bits(0.0)));
    assert!(!bits(-0.0).less(bits(0.0)));
    assert!(!bits(f32::NAN).less(bits(f32::INFINITY)));
    assert!(!bits(f32::NAN).at_least(bits(f32::NAN)));
}

#[test]
fn total_order_agrees_with_the_machine() {
    for a in samples() {
        for b in samples() {
            let place_a: i64 = bits(a).total_order();
            let place_b: i64 = bits(b).total_order();
            assert_eq!(place_a.cmp(&place_b), a.total_cmp(&b), "{a} and {b}");
        }
    }
}

#[test]
fn different_bits_have_different_places() {
    assert_ne!(bits(0.0).total_order(), bits(-0.0).total_order());
    assert_ne!(
        FloatBits::new(0x7fc0_0000).total_order(),
        FloatBits::new(0x7fc0_0001).total_order()
    );
}

#[test]
fn clamping_agrees_with_the_machine() {
    for value in samples() {
        let clamped: FloatBits = bits(value).clamp_to(FloatBits::new(ZERO), FloatBits::new(ONE));
        assert_eq!(clamped.bits, value.clamp(0.0, 1.0).to_bits(), "{value}");
    }
}

#[test]
fn clamped_value_lies_between() {
    let low: FloatBits = bits(-2.0);
    let high: FloatBits = bits(3.0);
    assert_eq!(bits(-5.0).clamp_to(low, high), low);
    assert_eq!(bits(5.0).clamp_to(low, high), high);
    assert_eq!(bits(0.5).clamp_to(low, high), bits(0.5));
}
