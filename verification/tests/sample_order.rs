use template_matching::sample::{gt, lt, nan, rank_of};
use template_matching::sample::{INFINITY_MAGNITUDE, LARGEST_FINITE, SIGN_BIT, SMALLEST_FINITE, ZERO};

fn notable_numbers() -> Vec<f32> {
    vec![
        0.0,
        -0.0,
        1.0,
        -1.0,
        0.5,
        -0.5,
        f32::MIN_POSITIVE,
        -f32::MIN_POSITIVE,
        f32::from_bits(1),
        f32::from_bits(0x8000_0001),
        f32::MAX,
        f32::MIN,
        f32::INFINITY,
        f32::NEG_INFINITY,
        f32::NAN,
        -f32::NAN,
        f32::from_bits(0x7F80_0001),
        f32::from_bits(0xFFFF_FFFF),
        3.0e38,
        -3.0e38,
        16_777_216.0,
        16_777_218.0,
    ]
}

#[test]
fn constants_are_the_bit_patterns_of_the_float_constants() {
    assert_eq!(LARGEST_FINITE, f32::MAX.to_bits());
    assert_eq!(SMALLEST_FINITE, f32::MIN.to_bits());
    assert_eq!(ZERO, 0.0f32.to_bits());
    assert_eq!(SIGN_BIT, (-0.0f32).to_bits());
    assert_eq!(INFINITY_MAGNITUDE, f32::INFINITY.to_bits());
}

#[test]
fn less_than_is_the_order_of_the_numbers() {
    for a in notable_numbers() {
        for b in notable_numbers() {
            assert_eq!(lt(a.to_bits(), b.to_bits()), a < b, "{a:?} < {b:?}");
        }
    }
}

#[test]
fn greater_than_is_the_order_of_the_numbers() {
    for a in notable_numbers() {
        for b in notable_numbers() {
            assert_eq!(gt(a.to_bits(), b.to_bits()), a > b, "{a:?} > {b:?}");
        }
    }
}

#[test]
fn nan_patterns_are_recognised() {
    for a in notable_numbers() {
        assert_eq!(nan(a.to_bits()), a.is_nan(), "{a:?}");
    }
    assert!(!nan(0x7F80_0000));
    assert!(nan(0x7F80_0001));
    assert!(!nan(0xFF80_0000));
    assert!(nan(0xFF80_0001));
}

#[test]
fn rank_is_the_signed_magnitude() {
    assert_eq!(rank_of(1.0f32.to_bits()), 0x3F80_0000);
    assert_eq!(rank_of((-1.0f32).to_bits()), -0x3F80_0000);
    assert_eq!(rank_of(0), 0);
    assert_eq!(rank_of(SIGN_BIT), 0);
    assert_eq!(rank_of(LARGEST_FINITE), 0x7F7F_FFFF);
    assert_eq!(rank_of(SMALLEST_FINITE), -0x7F7F_FFFF);
    assert_eq!(rank_of(0xFFFF_FFFF), -0x7FFF_FFFF);
}

#[test]
fn order_agrees_with_floats_on_pseudo_random_patterns() {
    let mut seed: u32 = 0xDEAD_BEEF;
    let mut previous: u32 = 0;
    for _ in 0..20_000 {
        seed = seed.wrapping_mul(1_664_525).wrapping_add(1_013_904_223);
        let a = f32::from_bits(seed);
        let b = f32::from_bits(previous);
        assert_eq!(lt(seed, previous), a < b);
        assert_eq!(gt(seed, previous), a > b);
        previous = seed;
    }
}
