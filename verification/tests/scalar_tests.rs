use nite2::scalar::{INFINITY_BITS, ONE_BITS};
use nite2::Scalar;

fn at_least_one(value: f32) -> bool {
    Scalar::from_bits(value.to_bits()).is_at_least_one()
}

#[test]
fn bit_patterns_of_one_and_infinity() {
    assert_eq!(ONE_BITS, 1.0f32.to_bits());
    assert_eq!(INFINITY_BITS, f32::INFINITY.to_bits());
}

#[test]
fn from_bits_and_to_bits_agree() {
    assert_eq!(Scalar::from_bits(0x4049_0fdb).to_bits(), 0x4049_0fdb);
    assert_eq!(Scalar::from_bits(0).bits, 0);
    assert_eq!(Scalar { bits: 7 }.to_bits(), 7);
}

#[test]
fn one_and_above_pass() {
    assert!(at_least_one(1.0));
    assert!(at_least_one(1.0000001));
    assert!(at_least_one(2.5));
    assert!(at_least_one(f32::MAX));
    assert!(at_least_one(f32::INFINITY));
}

#[test]
fn below_one_fails() {
    assert!(!at_least_one(0.99999994));
    assert!(!at_least_one(0.5));
    assert!(!at_least_one(0.0));
    assert!(!at_least_one(-0.0));
    assert!(!at_least_one(f32::MIN_POSITIVE));
    assert!(!at_least_one(1.0e-45));
}

#[test]
fn negative_values_fail() {
    assert!(!at_least_one(-1.0));
    assert!(!at_least_one(-2.5));
    assert!(!at_least_one(f32::MIN));
    assert!(!at_least_one(f32::NEG_INFINITY));
}

#[test]
fn not_a_number_fails() {
    assert!(!at_least_one(f32::NAN));
    assert!(!at_least_one(-f32::NAN));
    assert!(!Scalar::from_bits(0x7F80_0001).is_at_least_one());
    assert!(!Scalar::from_bits(0x7FFF_FFFF).is_at_least_one());
    assert!(!Scalar::from_bits(0xFFFF_FFFF).is_at_least_one());
}

#[test]
fn range_test_agrees_with_the_comparison_of_numbers() {
    // A stride that is odd walks through every exponent and both signs.
    let mut bits: u32 = 0;
    let mut checked: u32 = 0;
    loop {
        let value = f32::from_bits(bits);
        assert_eq!(Scalar::from_bits(bits).is_at_least_one(), value >= 1.0, "bits {:#x}", bits);
        checked += 1;
        match bits.checked_add(104_729) {
            Some(next) => bits = next,
            None => break,
        }
    }
    assert!(checked > 40_000);
    for bits in (ONE_BITS - 1000)..(ONE_BITS + 1000) {
        assert_eq!(Scalar::from_bits(bits).is_at_least_one(), f32::from_bits(bits) >= 1.0);
    }
    for bits in (INFINITY_BITS - 1000)..(INFINITY_BITS + 1000) {
        assert_eq!(Scalar::from_bits(bits).is_at_least_one(), f32::from_bits(bits) >= 1.0);
    }
}

#[test]
fn equality_is_that_of_numbers() {
    let zero = Scalar::from_bits(0.0f32.to_bits());
    let negative_zero = Scalar::from_bits((-0.0f32).to_bits());
    let one = Scalar::from_bits(1.0f32.to_bits());
    let nan = Scalar::from_bits(f32::NAN.to_bits());
    assert!(zero == negative_zero);
    assert!(negative_zero == zero);
    assert!(one == one);
    assert!(one != zero);
    assert!(nan != nan);
    assert!(nan != one);
    assert!(one != nan);
    assert!(Scalar::from_bits(f32::INFINITY.to_bits()) == Scalar::from_bits(INFINITY_BITS));
    assert!(
        Scalar::from_bits(f32::INFINITY.to_bits()) != Scalar::from_bits(f32::NEG_INFINITY.to_bits())
    );
}

#[test]
fn equality_agrees_with_the_comparison_of_numbers() {
    let samples: [u32; 14] = [
        0,
        0x8000_0000,
        1,
        0x8000_0001,
        ONE_BITS,
        ONE_BITS | 0x8000_0000,
        INFINITY_BITS,
        INFINITY_BITS | 0x8000_0000,
        INFINITY_BITS + 1,
        0x7FC0_0000,
        0xFFC0_0000,
        0xFFFF_FFFF,
        0x7F7F_FFFF,
        0x0080_0000,
    ];
    for a in samples.iter() {
        for b in samples.iter() {
            assert_eq!(
                Scalar::from_bits(*a) == Scalar::from_bits(*b),
                f32::from_bits(*a) == f32::from_bits(*b),
                "bits {:#x} and {:#x}",
                a,
                b
            );
        }
    }
}

#[test]
fn not_a_number_is_told_apart() {
    assert!(Scalar::from_bits(f32::NAN.to_bits()).is_not_a_number());
    assert!(Scalar::from_bits(0xFFC0_0000).is_not_a_number());
    assert!(Scalar::from_bits(INFINITY_BITS + 1).is_not_a_number());
    assert!(!Scalar::from_bits(INFINITY_BITS).is_not_a_number());
    assert!(!Scalar::from_bits(f32::NEG_INFINITY.to_bits()).is_not_a_number());
    assert!(!Scalar::from_bits(0).is_not_a_number());
    assert!(!Scalar::from_bits(ONE_BITS).is_not_a_number());
    let mut bits: u32 = 0;
    loop {
        assert_eq!(Scalar::from_bits(bits).is_not_a_number(), f32::from_bits(bits).is_nan());
        match bits.checked_add(1_299_709) {
            Some(next) => bits = next,
            None => break,
        }
    }
}
