//! Tests of the wide-integer helpers.

use cpamm::math::checked_ceil_div_u128;
use cpamm::math::integer_sqrt;
use cpamm::math::mul_div_u64;

#[test]
fn mul_div_rounds_down() {
    assert_eq!(mul_div_u64(6, 35, 10), Some(21));
    assert_eq!(mul_div_u64(7, 5, 10), Some(3));
    assert_eq!(mul_div_u64(0, 5, 10), Some(0));
    // the wide intermediate avoids a premature overflow
    assert_eq!(mul_div_u64(u64::MAX, 10, 10), Some(u64::MAX));
    assert_eq!(mul_div_u64(u64::MAX, 2, 4), Some(u64::MAX / 2));
}

#[test]
fn mul_div_fails_on_zero_denominator_or_narrowing() {
    assert_eq!(mul_div_u64(6, 35, 0), None);
    assert_eq!(mul_div_u64(u64::MAX, 2, 1), None);
}

#[test]
fn integer_sqrt_exact_and_floor() {
    assert_eq!(integer_sqrt(0), 0);
    assert_eq!(integer_sqrt(1), 1);
    assert_eq!(integer_sqrt(3), 1);
    assert_eq!(integer_sqrt(4), 2);
    assert_eq!(integer_sqrt(99), 9);
    assert_eq!(integer_sqrt(100), 10);
    assert_eq!(integer_sqrt(u128::MAX), u64::MAX);
    let near = (u64::MAX as u128) * (u64::MAX as u128);
    assert_eq!(integer_sqrt(near), u64::MAX);
    assert_eq!(integer_sqrt(near - 1), u64::MAX - 1);
}

#[test]
fn ceil_div_adjusts_the_divisor() {
    // an exact division leaves the divisor alone
    assert_eq!(checked_ceil_div_u128(6, 2), Some((3, 2)));
    // an inexact division rounds the quotient up, then shrinks the divisor to
    // the least value whose product with the quotient still covers the
    // dividend
    assert_eq!(checked_ceil_div_u128(7, 2), Some((4, 2)));
    assert_eq!(checked_ceil_div_u128(599_700_000, 30_000), Some((19_990, 30_000)));
    let (q, d) = checked_ceil_div_u128(280_000_000_000_000_000, 4_000_010).unwrap();
    assert_eq!(q, 69_999_825_001);
    assert_eq!(d, 4_000_010);
    assert!(q * d >= 280_000_000_000_000_000);
}

#[test]
fn ceil_div_fails_on_zero_quotient() {
    assert_eq!(checked_ceil_div_u128(1, 5), None);
    assert_eq!(checked_ceil_div_u128(0, 5), None);
    assert_eq!(checked_ceil_div_u128(5, 0), None);
}
