//! The sign type and the first estimate of the inverse square root.
use numcore::util::{quick_inverse_sqrt_bits, NonZeroSignum, INFINITY_BITS, MAGIC_NUMBER};
use std::cmp::Ordering;
use std::ops::Neg;

fn quick_inverse_sqrt(x: f32) -> f32 {
    let y = f32::from_bits(quick_inverse_sqrt_bits(x.to_bits()));
    y * (1.5 - 0.5 * x * y * y)
}

#[test]
fn estimate_is_magic_less_half_the_pattern() {
    assert_eq!(MAGIC_NUMBER, 0x5f3759df);
    assert_eq!(quick_inverse_sqrt_bits(0), 0x5f3759df);
    assert_eq!(quick_inverse_sqrt_bits(1.0f32.to_bits()), 0x3f7759df);
    assert_eq!(quick_inverse_sqrt_bits(4.0f32.to_bits()), 0x3ef759df);
    assert_eq!(quick_inverse_sqrt_bits(0.25f32.to_bits()), 0x3ff759df);
    assert_eq!(quick_inverse_sqrt_bits(1), 0x5f3759df);
    assert_eq!(quick_inverse_sqrt_bits(2), 0x5f3759de);
}

#[test]
fn estimate_wraps_on_patterns_past_twice_the_magic() {
    assert_eq!(quick_inverse_sqrt_bits(u32::MAX), 0xdf3759e0);
    assert_eq!(quick_inverse_sqrt_bits(0xbe6eb3be), 0);
    assert_eq!(quick_inverse_sqrt_bits(0xbe6eb3c0), u32::MAX);
    assert_eq!(quick_inverse_sqrt_bits((-1.0f32).to_bits()), 0xff7759df);
}

#[test]
fn estimate_of_a_positive_finite_number_is_positive_and_finite() {
    for bits in [1u32, 0x0080_0000, 0x3f80_0000, 0x7f7f_ffff] {
        let est = quick_inverse_sqrt_bits(bits);
        assert!(0 < est && est < INFINITY_BITS);
        assert!(f32::from_bits(est).is_finite());
        assert!(f32::from_bits(est) > 0.0);
    }
    assert_eq!(quick_inverse_sqrt_bits(0x7f7f_ffff), 0x1f7759e0);
}

#[test]
fn estimate_falls_as_the_argument_grows() {
    let mut last = u32::MAX;
    let mut bits = 1u32;
    while bits < INFINITY_BITS {
        let est = quick_inverse_sqrt_bits(bits);
        assert!(est <= last);
        last = est;
        bits += 0x0001_2345;
    }
}

#[test]
fn inverse_sqrt_of_one() {
    let y = quick_inverse_sqrt(1.0);
    assert!((y - 1.0).abs() < 0.002);
    assert_eq!(y.to_bits(), 0x3f7f910f);
}

#[test]
fn inverse_sqrt_within_two_thousandths() {
    let mut x: f32 = 1.0e-10;
    while x <= 1.0e10 {
        let exact = 1.0 / (x as f64).sqrt();
        let rel = ((quick_inverse_sqrt(x) as f64 - exact) / exact).abs();
        assert!(rel < 0.002, "x = {x}, relative error {rel}");
        x *= 1.0173;
    }
    for x in [1.0e10f32, 2.0, 3.0, 0.5, 100.0, 12345.678] {
        let exact = 1.0 / (x as f64).sqrt();
        assert!(((quick_inverse_sqrt(x) as f64 - exact) / exact).abs() < 0.002);
    }
}

#[test]
fn inverse_sqrt_takes_any_input_without_panic() {
    for x in [0.0f32, -0.0, -1.0, -1.0e30, f32::INFINITY, f32::NEG_INFINITY, f32::NAN] {
        let _ = quick_inverse_sqrt(x);
    }
    assert!(quick_inverse_sqrt(f32::NAN).is_nan());
}

#[test]
fn signs_know_what_they_are() {
    let pos = NonZeroSignum::positive();
    let neg = NonZeroSignum::negative();
    assert!(pos.is_positive());
    assert!(!pos.is_negative());
    assert!(neg.is_negative());
    assert!(!neg.is_positive());
    assert_eq!(i8::from(pos), 1);
    assert_eq!(i8::from(neg), -1);
}

#[test]
fn negation_swaps_the_signs() {
    let pos = NonZeroSignum::positive();
    let neg = NonZeroSignum::negative();
    assert!(-pos == neg);
    assert!(-neg == pos);
    assert!(-(-pos) == pos);
    assert!(pos.neg().is_negative());
}

#[test]
fn signs_compare_as_their_values() {
    let pos = NonZeroSignum::positive();
    let neg = NonZeroSignum::negative();
    assert!(pos == pos);
    assert!(neg == neg);
    assert!(pos != neg);
    assert!(neg < pos);
    assert!(pos > neg);
    assert!(neg <= neg);
    assert!(pos >= pos);
    assert_eq!(neg.partial_cmp(&pos), Some(Ordering::Less));
    assert_eq!(pos.partial_cmp(&neg), Some(Ordering::Greater));
    assert_eq!(pos.partial_cmp(&pos), Some(Ordering::Equal));
    assert_eq!(neg.cmp(&pos), Ordering::Less);
    assert_eq!(pos.cmp(&neg), Ordering::Greater);
    assert!(pos.max(neg) == pos);
}

#[test]
fn signs_convert_to_every_signed_width() {
    let pos = NonZeroSignum::positive();
    let neg = NonZeroSignum::negative();
    assert_eq!(i8::from(pos), 1);
    assert_eq!(i16::from(pos), 1);
    assert_eq!(i32::from(pos), 1);
    assert_eq!(i64::from(pos), 1);
    assert_eq!(i8::from(neg), -1);
    assert_eq!(i16::from(neg), -1);
    assert_eq!(i32::from(neg), -1);
    assert_eq!(i64::from(neg), -1);
    assert_eq!(Into::<i32>::into(neg), -1);
    let wide: i64 = neg.into();
    assert_eq!(wide, -1);
}

#[test]
fn sign_times_number() {
    let pos = NonZeroSignum::positive();
    let neg = NonZeroSignum::negative();
    assert_eq!(neg * 5i8, -5);
    assert_eq!(5i8 * neg, -5);
    assert_eq!(neg * 300i16, -300);
    assert_eq!(300i16 * neg, -300);
    assert_eq!(neg * 70_000i32, -70_000);
    assert_eq!(70_000i32 * neg, -70_000);
    assert_eq!(neg * 5_000_000_000i64, -5_000_000_000);
    assert_eq!(5_000_000_000i64 * neg, -5_000_000_000);
    assert_eq!(pos * -7i32, -7);
    assert_eq!(-7i32 * pos, -7);
    assert_eq!(neg * i32::MAX, -i32::MAX);
    assert_eq!(pos * i32::MIN, i32::MIN);
    assert_eq!(neg * (i8::MIN + 1), i8::MAX);
    assert_eq!(neg * 0i64, 0);
}

#[test]
fn number_divided_by_sign() {
    let pos = NonZeroSignum::positive();
    let neg = NonZeroSignum::negative();
    assert_eq!(12i8 / neg, -12);
    assert_eq!(12i16 / pos, 12);
    assert_eq!(-12i32 / neg, 12);
    assert_eq!(i64::MAX / neg, -i64::MAX);
    assert_eq!(i64::MIN / pos, i64::MIN);
}

#[test]
fn sign_plus_and_minus_signed_number() {
    let pos = NonZeroSignum::positive();
    let neg = NonZeroSignum::negative();
    assert_eq!(pos + 5i8, 6);
    assert_eq!(5i8 + pos, 6);
    assert_eq!(neg + 5i16, 4);
    assert_eq!(5i16 + neg, 4);
    assert_eq!(neg + i32::MAX, i32::MAX - 1);
    assert_eq!(i32::MIN + pos, i32::MIN + 1);
    assert_eq!(pos + -1i64, 0);
    assert_eq!(5i8 - pos, 4);
    assert_eq!(5i16 - neg, 6);
    assert_eq!(i32::MAX - pos, i32::MAX - 1);
    assert_eq!(i64::MIN - neg, i64::MIN + 1);
}

#[test]
fn sign_compares_with_signed_numbers() {
    let pos = NonZeroSignum::positive();
    let neg = NonZeroSignum::negative();
    assert!(pos == 1i8);
    assert!(1i16 == pos);
    assert!(neg == -1i32);
    assert!(-1i64 == neg);
    assert!(pos != -1i8);
    assert!(neg != 0i32);
    assert!(neg < 0i8);
    assert!(0i16 > neg);
    assert!(pos > 0i32);
    assert!(0i64 < pos);
    assert!(pos <= 1i8);
    assert!(pos < 2i16);
    assert!(-2i32 < neg);
    assert!(neg >= -1i64);
    assert_eq!(pos.partial_cmp(&1i32), Some(Ordering::Equal));
    assert_eq!(0i32.partial_cmp(&pos), Some(Ordering::Less));
    assert_eq!(i64::MAX.partial_cmp(&neg), Some(Ordering::Greater));
    assert_eq!(neg.partial_cmp(&i8::MIN), Some(Ordering::Greater));
}

#[test]
fn unsigned_number_steps_by_a_sign() {
    let pos = NonZeroSignum::positive();
    let neg = NonZeroSignum::negative();
    assert_eq!(5u8 + pos, 6);
    assert_eq!(pos + 5u8, 6);
    assert_eq!(5u8 + neg, 4);
    assert_eq!(neg + 5u8, 4);
    assert_eq!(5u8 - pos, 4);
    assert_eq!(5u8 - neg, 6);
    assert_eq!(200u8 + pos, 201);
    assert_eq!(200u8 - pos, 199);
    assert_eq!(1000u16 + pos, 1001);
    assert_eq!(1000u16 - neg, 1001);
    assert_eq!(neg + 70_000u32, 69_999);
    assert_eq!(70_000u32 - pos, 69_999);
    assert_eq!(pos + 5_000_000_000u64, 5_000_000_001);
    assert_eq!(5_000_000_000u64 - pos, 4_999_999_999);
}

#[test]
fn unsigned_number_goes_round_at_the_ends() {
    let pos = NonZeroSignum::positive();
    let neg = NonZeroSignum::negative();
    assert_eq!(u8::MAX + pos, 0);
    assert_eq!(0u8 + neg, u8::MAX);
    assert_eq!(0u8 - pos, u8::MAX);
    assert_eq!(u8::MAX - neg, 0);
    assert_eq!(127u8 + pos, 128);
    assert_eq!(128u8 + neg, 127);
    assert_eq!(u16::MAX + pos, 0);
    assert_eq!(0u16 - pos, u16::MAX);
    assert_eq!(pos + u32::MAX, 0);
    assert_eq!(0u32 + neg, u32::MAX);
    assert_eq!(u64::MAX + pos, 0);
    assert_eq!(0u64 - pos, u64::MAX);
}
