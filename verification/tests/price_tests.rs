use dex_core::currency::{Currency, Token};
use dex_core::currency_amount::CurrencyAmount;
use dex_core::price::Price;
use dex_core::{Error, Rounding};
use num_bigint::BigInt;

const ADDRESS_ZERO: &str = "0x0000000000000000000000000000000000000000";
const ADDRESS_ONE: &str = "0x0000000000000000000000000000000000000001";
const ADDRESS_TWO: &str = "0x0000000000000000000000000000000000000002";

fn token(chain: u32, address: &str, decimals: u32) -> Currency {
    Currency::Token(Token::new(
        chain,
        address.to_string(),
        decimals,
        None,
        None,
        None,
        None,
    ))
}

fn big(x: i64) -> BigInt {
    BigInt::from(x)
}

#[test]
fn test_constructor_array_format_works() {
    let price = Price::new(
        token(1, ADDRESS_ZERO, 18),
        token(1, ADDRESS_ONE, 18),
        big(1),
        big(54321),
    )
    .unwrap();
    assert_eq!(
        price.to_significant(5, Rounding::RoundDown).unwrap(),
        "54321"
    );
    assert!(price.meta.base_currency.equals(&token(1, ADDRESS_ZERO, 18)));
    assert!(price.meta.quote_currency.equals(&token(1, ADDRESS_ONE, 18)));
}

#[test]
fn test_constructor_object_format_works() {
    let price = Price::from_currency_amounts(
        CurrencyAmount::from_raw_amount(token(1, ADDRESS_ZERO, 18), big(1)).unwrap(),
        CurrencyAmount::from_raw_amount(token(1, ADDRESS_ONE, 18), big(54321)).unwrap(),
    )
    .unwrap();
    assert_eq!(
        price.to_significant(5, Rounding::RoundDown).unwrap(),
        "54321"
    );
    assert!(price.meta.base_currency.equals(&token(1, ADDRESS_ZERO, 18)));
    assert!(price.meta.quote_currency.equals(&token(1, ADDRESS_ONE, 18)));
}

#[test]
fn test_quote_returns_correct_value() {
    let price = Price::new(
        token(1, ADDRESS_ZERO, 18),
        token(1, ADDRESS_ONE, 18),
        big(1),
        big(5),
    );
    assert!(
        price
            .unwrap()
            .quote(CurrencyAmount::from_raw_amount(token(1, ADDRESS_ZERO, 18), big(10)).unwrap())
            .unwrap()
            == CurrencyAmount::from_raw_amount(token(1, ADDRESS_ONE, 18), big(50)).unwrap()
    );
}

#[test]
fn test_to_significant_no_decimals() {
    let p = Price::new(
        token(1, ADDRESS_ZERO, 18),
        token(1, ADDRESS_ONE, 18),
        big(123),
        big(456),
    );
    assert_eq!(
        p.unwrap().to_significant(4, Rounding::RoundDown).unwrap(),
        "3.707"
    );
}

#[test]
fn test_to_significant_no_decimals_flip_ratio() {
    let p = Price::new(
        token(1, ADDRESS_ZERO, 18),
        token(1, ADDRESS_ONE, 18),
        big(456),
        big(123),
    );
    assert_eq!(
        p.unwrap().to_significant(4, Rounding::RoundDown).unwrap(),
        "0.2697"
    );
}

#[test]
fn test_to_significant_with_decimal_difference() {
    let p = Price::new(
        token(1, ADDRESS_ZERO, 6),
        token(1, ADDRESS_ONE, 18),
        big(123),
        big(456),
    );
    assert_eq!(
        p.unwrap().to_significant(4, Rounding::RoundDown).unwrap(),
        "0.000000000003707"
    );
}

#[test]
fn test_to_significant_with_decimal_difference_flipped() {
    let p = Price::new(
        token(1, ADDRESS_ZERO, 6),
        token(1, ADDRESS_ONE, 18),
        big(456),
        big(123),
    );
    assert_eq!(
        p.unwrap().to_significant(4, Rounding::RoundDown).unwrap(),
        "0.0000000000002697"
    );
}

#[test]
fn test_to_significant_with_decimal_difference_flipped_base_quote_flipped() {
    let p = Price::new(
        token(1, ADDRESS_ONE, 18),
        token(1, ADDRESS_ZERO, 6),
        big(456),
        big(123),
    );
    assert_eq!(
        p.unwrap().to_significant(4, Rounding::RoundDown).unwrap(),
        "269700000000"
    );
}

#[test]
fn test_invert_twice_restores_ratio() {
    let p = Price::new(
        token(1, ADDRESS_ZERO, 18),
        token(1, ADDRESS_ONE, 6),
        big(123),
        big(456),
    )
    .unwrap();
    let back = p.invert().unwrap().invert().unwrap();
    assert_eq!(back.numerator(), p.numerator());
    assert_eq!(back.denominator(), p.denominator());
    assert!(back.meta.base_currency.equals(&p.meta.base_currency));
    assert!(back.meta.quote_currency.equals(&p.meta.quote_currency));
}

#[test]
fn test_invert_swaps_ratio() {
    let p = Price::new(
        token(1, ADDRESS_ZERO, 18),
        token(1, ADDRESS_ONE, 18),
        big(10),
        big(17),
    )
    .unwrap();
    let inv = p.invert().unwrap();
    assert_eq!(inv.numerator(), &big(10));
    assert_eq!(inv.denominator(), &big(17));
}

#[test]
fn test_quote_is_linear() {
    let p = Price::new(
        token(1, ADDRESS_ZERO, 18),
        token(1, ADDRESS_ONE, 18),
        big(3),
        big(7),
    )
    .unwrap();
    let a = CurrencyAmount::from_fractional_amount(token(1, ADDRESS_ZERO, 18), big(5), big(2))
        .unwrap();
    let b = CurrencyAmount::from_raw_amount(token(1, ADDRESS_ZERO, 18), big(4)).unwrap();
    let sum = a.add(&b).unwrap();
    let quoted_sum = p.quote(sum).unwrap();
    let sum_of_quotes = p.quote(a).unwrap().add(&p.quote(b).unwrap()).unwrap();
    assert!(quoted_sum == sum_of_quotes);
}

#[test]
fn test_multiply_composes_rates() {
    let ab = Price::new(
        token(1, ADDRESS_ZERO, 18),
        token(1, ADDRESS_ONE, 18),
        big(3),
        big(2),
    )
    .unwrap();
    let bc = Price::new(
        token(1, ADDRESS_ONE, 18),
        token(1, ADDRESS_TWO, 18),
        big(5),
        big(7),
    )
    .unwrap();
    let ac = ab.multiply(&bc).unwrap();
    assert_eq!(ac.numerator(), &big(14));
    assert_eq!(ac.denominator(), &big(15));
    assert!(ac.meta.base_currency.equals(&token(1, ADDRESS_ZERO, 18)));
    assert!(ac.meta.quote_currency.equals(&token(1, ADDRESS_TWO, 18)));
}

#[test]
fn test_multiply_mismatched_currency_fails() {
    let ab = Price::new(
        token(1, ADDRESS_ZERO, 18),
        token(1, ADDRESS_ONE, 18),
        big(3),
        big(2),
    )
    .unwrap();
    let cb = Price::new(
        token(1, ADDRESS_TWO, 18),
        token(1, ADDRESS_ONE, 18),
        big(5),
        big(7),
    )
    .unwrap();
    assert_eq!(ab.multiply(&cb).unwrap_err(), Error::MismatchedCurrency);
}

#[test]
fn test_quote_mismatched_currency_fails() {
    let p = Price::new(
        token(1, ADDRESS_ZERO, 18),
        token(1, ADDRESS_ONE, 18),
        big(1),
        big(5),
    )
    .unwrap();
    let amount = CurrencyAmount::from_raw_amount(token(1, ADDRESS_TWO, 18), big(10)).unwrap();
    assert_eq!(p.quote(amount).unwrap_err(), Error::MismatchedCurrency);
    let p2 = Price::new(
        token(1, ADDRESS_ZERO, 18),
        token(1, ADDRESS_ONE, 18),
        big(1),
        big(5),
    )
    .unwrap();
    let other_chain = CurrencyAmount::from_raw_amount(token(2, ADDRESS_ZERO, 18), big(10)).unwrap();
    assert_eq!(p2.quote(other_chain).unwrap_err(), Error::MismatchedCurrency);
}

#[test]
fn test_price_new_zero_denominator_fails() {
    let p = Price::new(
        token(1, ADDRESS_ZERO, 18),
        token(1, ADDRESS_ONE, 18),
        big(0),
        big(5),
    );
    assert_eq!(p.unwrap_err(), Error::DivisionByZero);
}

#[test]
fn test_from_currency_amounts_zero_base_fails() {
    let base = CurrencyAmount::from_raw_amount(token(1, ADDRESS_ZERO, 18), big(0)).unwrap();
    let quote = CurrencyAmount::from_raw_amount(token(1, ADDRESS_ONE, 18), big(5)).unwrap();
    assert_eq!(
        Price::from_currency_amounts(base, quote).unwrap_err(),
        Error::DivisionByZero
    );
}

#[test]
fn test_to_significant_carry_over() {
    let p = Price::new(
        token(1, ADDRESS_ZERO, 18),
        token(1, ADDRESS_ONE, 18),
        big(100),
        big(99996),
    )
    .unwrap();
    assert_eq!(
        p.to_significant(4, Rounding::RoundHalfUp).unwrap(),
        "1000"
    );
    let p2 = Price::new(
        token(1, ADDRESS_ZERO, 18),
        token(1, ADDRESS_ONE, 18),
        big(100),
        big(99996),
    )
    .unwrap();
    assert_eq!(
        p2.to_significant(4, Rounding::RoundDown).unwrap(),
        "999.9"
    );
}

#[test]
fn test_to_fixed_of_price() {
    let p = Price::new(
        token(1, ADDRESS_ZERO, 18),
        token(1, ADDRESS_ONE, 18),
        big(3),
        big(10),
    )
    .unwrap();
    assert_eq!(p.to_fixed(2, Rounding::RoundDown).unwrap(), "3.33");
    let p2 = Price::new(
        token(1, ADDRESS_ZERO, 18),
        token(1, ADDRESS_ONE, 18),
        big(3),
        big(10),
    )
    .unwrap();
    assert_eq!(p2.to_fixed(0, Rounding::RoundHalfUp).unwrap(), "3");
}
