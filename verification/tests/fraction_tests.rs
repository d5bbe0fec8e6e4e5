use dex_core::fraction::Fraction;
use dex_core::{Error, Rounding};
use num_bigint::BigInt;

fn big(x: i64) -> BigInt {
    BigInt::from(x)
}

fn frac(n: i64, d: i64) -> Fraction {
    Fraction::new(big(n), big(d)).unwrap()
}

#[test]
fn test_new_reads_back_unreduced() {
    let f = frac(6, 4);
    assert_eq!(f.numerator(), &big(6));
    assert_eq!(f.denominator(), &big(4));
    let g = frac(-35, 70);
    assert_eq!(g.numerator(), &big(-35));
    assert_eq!(g.denominator(), &big(70));
}

#[test]
fn test_new_zero_denominator_fails() {
    assert_eq!(
        Fraction::new(big(1), big(0)).unwrap_err(),
        Error::DivisionByZero
    );
}

#[test]
fn test_arithmetic_is_exact() {
    let sum = frac(1, 3).add(&frac(1, 6)).unwrap();
    assert_eq!(sum.numerator(), &big(9));
    assert_eq!(sum.denominator(), &big(18));
    let diff = frac(1, 2).subtract(&frac(1, 3)).unwrap();
    assert_eq!(diff.numerator(), &big(1));
    assert_eq!(diff.denominator(), &big(6));
    let prod = frac(2, 3).multiply(&frac(5, 7)).unwrap();
    assert_eq!(prod.numerator(), &big(10));
    assert_eq!(prod.denominator(), &big(21));
    let quot = frac(2, 3).divide(&frac(5, 7)).unwrap();
    assert_eq!(quot.numerator(), &big(14));
    assert_eq!(quot.denominator(), &big(15));
}

#[test]
fn test_divide_by_zero_value_fails() {
    assert_eq!(
        frac(2, 3).divide(&frac(0, 7)).unwrap_err(),
        Error::DivisionByZero
    );
}

#[test]
fn test_comparison_by_cross_multiplication() {
    assert!(frac(1, 2).equal_to(&frac(2, 4)));
    assert!(!frac(1, 2).equal_to(&frac(2, 3)));
    assert!(frac(1, 3).less_than(&frac(1, 2)));
    assert!(!frac(1, 2).less_than(&frac(1, 3)));
    assert!(frac(-1, 2).less_than(&frac(1, 3)));
    assert!(frac(1, -2).less_than(&frac(1, 3)));
    assert!(!frac(1, 3).less_than(&frac(1, -2)));
}

#[test]
fn test_to_fixed_pads_and_rounds() {
    assert_eq!(frac(1, 3).to_fixed(4, Rounding::RoundDown), "0.3333");
    assert_eq!(frac(2, 3).to_fixed(2, Rounding::RoundHalfUp), "0.67");
    assert_eq!(frac(2, 3).to_fixed(2, Rounding::RoundDown), "0.66");
    assert_eq!(frac(2, 3).to_fixed(2, Rounding::RoundUp), "0.67");
    assert_eq!(frac(1, 2).to_fixed(3, Rounding::RoundDown), "0.500");
    assert_eq!(frac(7, 1).to_fixed(2, Rounding::RoundDown), "7.00");
}

#[test]
fn test_to_fixed_zero_places_has_no_point() {
    assert_eq!(frac(5, 2).to_fixed(0, Rounding::RoundDown), "2");
    assert_eq!(frac(5, 2).to_fixed(0, Rounding::RoundHalfUp), "3");
    assert_eq!(frac(5, 2).to_fixed(0, Rounding::RoundUp), "3");
    assert_eq!(frac(-5, 2).to_fixed(0, Rounding::RoundUp), "-3");
    assert_eq!(frac(0, 9).to_fixed(0, Rounding::RoundUp), "0");
    assert!(!frac(12345, 4).to_fixed(0, Rounding::RoundDown).contains('.'));
}

#[test]
fn test_to_fixed_negative_values() {
    assert_eq!(frac(-1, 2).to_fixed(1, Rounding::RoundDown), "-0.5");
    assert_eq!(frac(1, -2).to_fixed(1, Rounding::RoundDown), "-0.5");
    assert_eq!(frac(-1, -2).to_fixed(1, Rounding::RoundDown), "0.5");
    assert_eq!(frac(-1, 3).to_fixed(2, Rounding::RoundUp), "-0.34");
}

#[test]
fn test_to_significant_strips_trailing_zeros() {
    assert_eq!(frac(1, 2).to_significant(4, Rounding::RoundDown), "0.5");
    assert_eq!(frac(50, 1).to_significant(5, Rounding::RoundDown), "50");
    assert_eq!(frac(54321, 1).to_significant(5, Rounding::RoundDown), "54321");
}

#[test]
fn test_to_significant_rounding_modes() {
    assert_eq!(frac(26973, 100000).to_significant(4, Rounding::RoundUp), "0.2698");
    assert_eq!(frac(26973, 100000).to_significant(4, Rounding::RoundDown), "0.2697");
    assert_eq!(frac(25, 1000).to_significant(1, Rounding::RoundHalfUp), "0.03");
    assert_eq!(frac(-37071, 10000).to_significant(4, Rounding::RoundDown), "-3.707");
    assert_eq!(frac(0, 5).to_significant(3, Rounding::RoundDown), "0");
}

#[test]
fn test_to_significant_huge_values() {
    let n = BigInt::from(123456789012345678901234567890u128);
    let f = Fraction::new(n, big(1)).unwrap();
    assert_eq!(
        f.to_significant(5, Rounding::RoundDown),
        "123450000000000000000000000000"
    );
    let tiny = Fraction::new(big(7), BigInt::from(10u64).pow(20)).unwrap();
    assert_eq!(
        tiny.to_significant(2, Rounding::RoundDown),
        "0.00000000000000000007"
    );
}

#[test]
fn test_rounding_carry_across_magnitude() {
    assert_eq!(
        frac(99995, 100).to_fixed(1, Rounding::RoundHalfUp),
        "1000.0"
    );
    assert_eq!(
        frac(99996, 100000).to_significant(4, Rounding::RoundHalfUp),
        "1"
    );
    assert_eq!(
        frac(99996, 100000).to_significant(4, Rounding::RoundDown),
        "0.9999"
    );
}

#[test]
fn test_duplicate_preserves_pair() {
    let f = frac(123, 456);
    let g = f.duplicate();
    assert_eq!(g.numerator(), f.numerator());
    assert_eq!(g.denominator(), f.denominator());
}
