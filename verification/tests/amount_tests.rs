use dex_core::currency::{Currency, Token};
use dex_core::currency_amount::CurrencyAmount;
use dex_core::Error;
use num_bigint::BigInt;

const ADDRESS_ONE: &str = "0x0000000000000000000000000000000000000001";
const ADDRESS_TWO: &str = "0x0000000000000000000000000000000000000002";

fn token(chain: u32, address: &str, decimals: u32) -> Currency {
    Currency::Token(Token::new(
        chain,
        address.to_string(),
        decimals,
        None,
        None,
        None,
        None,
    ))
}

fn big(x: i64) -> BigInt {
    BigInt::from(x)
}

#[test]
fn test_from_raw_amount_reads_back() {
    let a = CurrencyAmount::from_raw_amount(token(1, ADDRESS_ONE, 18), big(100)).unwrap();
    assert_eq!(a.numerator(), &big(100));
    assert_eq!(a.denominator(), &big(1));
}

#[test]
fn test_from_fractional_amount_reads_back() {
    let a =
        CurrencyAmount::from_fractional_amount(token(1, ADDRESS_ONE, 18), big(7), big(3)).unwrap();
    assert_eq!(a.numerator(), &big(7));
    assert_eq!(a.denominator(), &big(3));
    let bad = CurrencyAmount::from_fractional_amount(token(1, ADDRESS_ONE, 18), big(7), big(0));
    assert_eq!(bad.unwrap_err(), Error::DivisionByZero);
}

#[test]
fn test_amount_arithmetic_same_currency() {
    let a = CurrencyAmount::from_fractional_amount(token(1, ADDRESS_ONE, 18), big(1), big(2))
        .unwrap();
    let b = CurrencyAmount::from_fractional_amount(token(1, ADDRESS_ONE, 18), big(1), big(3))
        .unwrap();
    let sum = a.add(&b).unwrap();
    assert_eq!(sum.numerator(), &big(5));
    assert_eq!(sum.denominator(), &big(6));
    let diff = a.subtract(&b).unwrap();
    assert_eq!(diff.numerator(), &big(1));
    assert_eq!(diff.denominator(), &big(6));
    let prod = a.multiply(&b).unwrap();
    assert_eq!(prod.numerator(), &big(1));
    assert_eq!(prod.denominator(), &big(6));
    let quot = a.divide(&b).unwrap();
    assert_eq!(quot.numerator(), &big(3));
    assert_eq!(quot.denominator(), &big(2));
}

#[test]
fn test_amount_arithmetic_mismatched_currency_fails() {
    let a = CurrencyAmount::from_raw_amount(token(1, ADDRESS_ONE, 18), big(1)).unwrap();
    let b = CurrencyAmount::from_raw_amount(token(1, ADDRESS_TWO, 18), big(1)).unwrap();
    assert_eq!(a.add(&b).unwrap_err(), Error::MismatchedCurrency);
    assert_eq!(a.subtract(&b).unwrap_err(), Error::MismatchedCurrency);
    assert_eq!(a.multiply(&b).unwrap_err(), Error::MismatchedCurrency);
    assert_eq!(a.divide(&b).unwrap_err(), Error::MismatchedCurrency);
}

#[test]
fn test_amount_divide_by_zero_value_fails() {
    let a = CurrencyAmount::from_raw_amount(token(1, ADDRESS_ONE, 18), big(1)).unwrap();
    let zero = CurrencyAmount::from_raw_amount(token(1, ADDRESS_ONE, 18), big(0)).unwrap();
    assert_eq!(a.divide(&zero).unwrap_err(), Error::DivisionByZero);
}

#[test]
fn test_amount_equality_by_value() {
    let half = CurrencyAmount::from_fractional_amount(token(1, ADDRESS_ONE, 18), big(1), big(2))
        .unwrap();
    let two_quarters =
        CurrencyAmount::from_fractional_amount(token(1, ADDRESS_ONE, 18), big(2), big(4)).unwrap();
    let third = CurrencyAmount::from_fractional_amount(token(1, ADDRESS_ONE, 18), big(1), big(3))
        .unwrap();
    let other_currency =
        CurrencyAmount::from_fractional_amount(token(1, ADDRESS_TWO, 18), big(1), big(2)).unwrap();
    assert!(half == two_quarters);
    assert!(half != third);
    assert!(half != other_currency);
}
