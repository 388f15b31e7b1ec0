use fixed_decimal::{Float, UFloat};
use num::{BigInt, BigUint};

#[test]
fn test_ufloat() {
    let float = UFloat::<12>::new(321_999_999_999_999_u64.into());
    assert_eq!("321.999999999999", float.to_string());

    let float = UFloat::<2>::new(20_u16.into());
    assert_eq!("0.20", &float.to_string());

    let float = UFloat::<20>::new(20_u16.into());
    assert_eq!("0.00000000000000000020", &float.to_string());

    let float = UFloat::<20>::new(321_999_999_999_999_u64.into());
    assert_eq!("0.00000321999999999999", float.to_string());
}

#[test]
fn test_float() {
    let float = Float::<12>::new(BigInt::from(-321_999_999_999_999_i64));
    assert_eq!("-321.999999999999", float.to_string());

    let float = Float::<20>::new(BigInt::from(-20_i16));
    assert_eq!("-0.00000000000000000020", &float.to_string());
}

#[test]
fn test_ufloat_subtraction() {
    let lhs_float = UFloat::<12>::new(321_999_999_999_999_u64.into());
    let rhs_float = UFloat::<12>::new(999_000_000_000_u64.into());

    // 321.999999999999 - 0.999000000000
    let actual_result = lhs_float - rhs_float;
    let expected = UFloat::<12>::new(321_000_999_999_999_u64.into());
    let one_digit_off = UFloat::<12>::new(321_099_999_999_999_u64.into());

    assert_eq!(&expected, &actual_result);
    assert_ne!(&one_digit_off, &actual_result);
    assert_eq!("321.000999999999", actual_result.to_string());
}

#[test]
fn test_ufloat_subtraction_with_less_precision() {
    let lhs_float = UFloat::<12>::new(321_999_999_999_999_u64.into());
    let rhs_float = UFloat::<6>::new(21_000_000_u64.into());

    let actual_result = lhs_float - rhs_float;
    let expected = UFloat::<12>::new(300_999_999_999_999_u64.into());

    assert_eq!(&expected, &actual_result);
    assert_eq!("300.999999999999", actual_result.to_string());
}

#[test]
fn test_zero_renders_with_every_fraction_digit() {
    assert_eq!("0.0", UFloat::<1>::new(BigUint::from(0_u8)).to_string());
    assert_eq!("0.00", UFloat::<2>::new(BigUint::from(0_u8)).to_string());
    assert_eq!("0.0000000", UFloat::<7>::new(BigUint::from(0_u8)).to_string());
}

#[test]
fn test_fraction_width_is_the_precision() {
    let magnitudes: [u64; 8] = [0, 1, 9, 10, 99, 100, 12_345, 9_999_999_999];
    for m in magnitudes {
        let text = UFloat::<3>::new(BigUint::from(m)).to_string();
        let point = text.find('.').expect("a rendering has a point");
        assert_eq!(text.len() - point - 1, 3);
        assert_eq!(text.matches('.').count(), 1);
        assert!(text.bytes().all(|b| b == b'.' || b.is_ascii_digit()));
    }
}

#[test]
fn test_subtracting_a_number_from_itself_gives_zero() {
    let lhs = UFloat::<4>::new(BigUint::from(123_456_u32));
    let rhs = UFloat::<4>::new(BigUint::from(123_456_u32));
    let difference = lhs - rhs;
    assert_eq!(UFloat::<4>::new(BigUint::from(0_u8)), difference);
    assert_eq!("0.0000", difference.to_string());
}

#[test]
fn test_digits_at_the_boundary() {
    // As many digits as the precision: the integer part is a lone zero.
    assert_eq!("0.123", UFloat::<3>::new(BigUint::from(123_u16)).to_string());
    // One digit more: it becomes the integer part.
    assert_eq!("1.234", UFloat::<3>::new(BigUint::from(1234_u16)).to_string());
    // One digit fewer: one zero of padding.
    assert_eq!("0.012", UFloat::<3>::new(BigUint::from(12_u16)).to_string());
    // Trailing zeros stay.
    assert_eq!("12.000", UFloat::<3>::new(BigUint::from(12_000_u16)).to_string());
}

#[test]
fn test_magnitude_beyond_machine_words() {
    let magnitude = BigUint::from(10_u8).pow(40) + BigUint::from(7_u8);
    let float = UFloat::<10>::new(magnitude);
    assert_eq!("1000000000000000000000000000000.0000000007", float.to_string());
}

#[test]
fn test_checked_sub_reports_underflow() {
    let lhs = UFloat::<2>::new(BigUint::from(5_u8));
    let rhs = UFloat::<2>::new(BigUint::from(10_u8));
    assert_eq!(None, lhs.checked_sub(rhs));
}

#[test]
fn test_checked_sub_underflow_after_alignment() {
    // 5.00 - 6 at one digit less of precision: 500 < 60 * 10.
    let lhs = UFloat::<2>::new(BigUint::from(500_u16));
    let rhs = UFloat::<1>::new(BigUint::from(60_u8));
    assert_eq!(None, lhs.checked_sub(rhs));
}

#[test]
fn test_checked_sub_agrees_with_the_operator() {
    let lhs = UFloat::<12>::new(321_999_999_999_999_u64.into());
    let rhs = UFloat::<6>::new(21_000_000_u64.into());
    let difference = lhs.checked_sub(rhs).expect("the right-hand side is smaller");
    assert_eq!(UFloat::<12>::new(300_999_999_999_999_u64.into()), difference);

    let lhs = UFloat::<3>::new(BigUint::from(1500_u16));
    let rhs = UFloat::<3>::new(BigUint::from(1500_u16));
    let difference = lhs.checked_sub(rhs).expect("equal numbers can be subtracted");
    assert_eq!("0.000", difference.to_string());
}

#[test]
fn test_equality_compares_magnitudes() {
    let a = UFloat::<2>::new(BigUint::from(150_u8));
    let b = UFloat::<2>::new(BigUint::from(150_u8));
    let c = UFloat::<2>::new(BigUint::from(151_u8));
    assert_eq!(a, b);
    assert_ne!(a, c);
}

#[test]
fn test_positive_float_has_no_sign() {
    let float = Float::<2>::new(BigInt::from(1234));
    assert_eq!("12.34", float.to_string());
}

#[test]
fn test_zero_float_is_stored_negative() {
    let float = Float::<2>::new(BigInt::from(0));
    assert_eq!("-0.00", float.to_string());
}

#[test]
fn test_float_equality_compares_sign_and_magnitude() {
    let a = Float::<3>::new(BigInt::from(-2500));
    let b = Float::<3>::new(BigInt::from(-2500));
    let c = Float::<3>::new(BigInt::from(2500));
    let d = Float::<3>::new(BigInt::from(-2501));
    assert_eq!(a, b);
    assert_ne!(a, c);
    assert_ne!(a, d);
}
