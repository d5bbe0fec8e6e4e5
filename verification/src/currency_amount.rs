//! A currency amount: a quantity of one asset, held as an exact rational
//! number of smallest on-chain units together with the asset's identity
//! and decimal scale.
//!
//! Every arithmetic operation between two amounts is gated on currency
//! equality; a mismatch is a reported error, never a silent coercion.

use vstd::prelude::*;
use num_bigint::BigInt;
use crate::Error;
use crate::bigint::{big_value, big_from_u64, big_clone, big_mul, big_eq, big_pow10, pow10};
use crate::currency::Currency;
use crate::fraction::{Fraction, FractionLike};

verus! {

/// The payload of a currency amount: the asset's identity and its decimal
/// scale `10^decimals`.
#[derive(Debug)]
pub struct CurrencyMeta {
    /// The asset the amount is denominated in.
    pub currency: Currency,
    /// `10^decimals` for the asset's decimal count.
    pub decimal_scale: BigInt,
}

/// A quantity of one asset, as an exact rational number of smallest
/// on-chain units.
pub type CurrencyAmount = FractionLike<CurrencyMeta>;

impl FractionLike<CurrencyMeta> {
    /// Well-formedness: the rational value and the currency are well
    /// formed, and the stored scale is exactly `10^decimals`.
    pub open spec fn wf_amount(self) -> bool {
        self.wf_value() && self.meta.currency.wf() && big_value(self.meta.decimal_scale) == pow10(
            self.meta.currency.spec_decimals() as nat,
        )
    }

    /// Builds an amount from a quantity of smallest on-chain units: the
    /// integer numerator over a denominator of one.
    pub fn from_raw_amount(currency: Currency, raw_amount: BigInt) -> (r: Result<
        CurrencyAmount,
        Error,
    >)
        requires
            currency.wf(),
        ensures
            r is Ok,
            r->Ok_0.num() == big_value(raw_amount),
            r->Ok_0.den() == 1,
            r->Ok_0.meta.currency == currency,
            r->Ok_0.wf_amount(),
    {
        let scale = big_pow10(currency.decimals() as usize);
        let one = big_from_u64(1);
        FractionLike::from_parts(raw_amount, one, CurrencyMeta { currency, decimal_scale: scale })
    }

    /// Builds an amount from an exact fraction of smallest on-chain
    /// units; a zero denominator is rejected.
    pub fn from_fractional_amount(currency: Currency, numerator: BigInt, denominator: BigInt) -> (r:
        Result<CurrencyAmount, Error>)
        requires
            currency.wf(),
        ensures
            big_value(denominator) != 0 ==> r is Ok && r->Ok_0.num() == big_value(numerator)
                && r->Ok_0.den() == big_value(denominator) && r->Ok_0.meta.currency == currency
                && r->Ok_0.wf_amount(),
            big_value(denominator) == 0 ==> r is Err && r->Err_0 == Error::DivisionByZero,
    {
        let scale = big_pow10(currency.decimals() as usize);
        FractionLike::from_parts(numerator, denominator, CurrencyMeta { currency, decimal_scale: scale })
    }

    /// A payload copy with the same currency and scale.
    fn meta_duplicate(&self) -> (r: CurrencyMeta)
        ensures
            r.currency == self.meta.currency,
            big_value(r.decimal_scale) == big_value(self.meta.decimal_scale),
    {
        CurrencyMeta {
            currency: self.meta.currency.duplicate(),
            decimal_scale: big_clone(&self.meta.decimal_scale),
        }
    }

    /// Exact addition of two amounts of the same asset; amounts of
    /// different assets are rejected as mismatched.
    pub fn add(&self, other: &CurrencyAmount) -> (r: Result<CurrencyAmount, Error>)
        requires
            self.wf_amount(),
            other.wf_amount(),
        ensures
            self.meta.currency.eq_spec(other.meta.currency) ==> r is Ok && r->Ok_0.num()
                == self.num() * other.den() + other.num() * self.den() && r->Ok_0.den()
                == self.den() * other.den() && r->Ok_0.meta.currency == self.meta.currency
                && r->Ok_0.wf_amount(),
            !self.meta.currency.eq_spec(other.meta.currency) ==> r is Err && r->Err_0
                == Error::MismatchedCurrency,
    {
        if !self.meta.currency.equals(&other.meta.currency) {
            return Err(Error::MismatchedCurrency);
        }
        match self.value.add(&other.value) {
            Ok(value) => Ok(FractionLike { value, meta: self.meta_duplicate() }),
            Err(e) => Err(e),
        }
    }

    /// Exact subtraction of two amounts of the same asset; amounts of
    /// different assets are rejected as mismatched.
    pub fn subtract(&self, other: &CurrencyAmount) -> (r: Result<CurrencyAmount, Error>)
        requires
            self.wf_amount(),
            other.wf_amount(),
        ensures
            self.meta.currency.eq_spec(other.meta.currency) ==> r is Ok && r->Ok_0.num()
                == self.num() * other.den() - other.num() * self.den() && r->Ok_0.den()
                == self.den() * other.den() && r->Ok_0.meta.currency == self.meta.currency
                && r->Ok_0.wf_amount(),
            !self.meta.currency.eq_spec(other.meta.currency) ==> r is Err && r->Err_0
                == Error::MismatchedCurrency,
    {
        if !self.meta.currency.equals(&other.meta.currency) {
            return Err(Error::MismatchedCurrency);
        }
        match self.value.subtract(&other.value) {
            Ok(value) => Ok(FractionLike { value, meta: self.meta_duplicate() }),
            Err(e) => Err(e),
        }
    }

    /// Exact multiplication of two amounts of the same asset; amounts of
    /// different assets are rejected as mismatched.
    pub fn multiply(&self, other: &CurrencyAmount) -> (r: Result<CurrencyAmount, Error>)
        requires
            self.wf_amount(),
            other.wf_amount(),
        ensures
            self.meta.currency.eq_spec(other.meta.currency) ==> r is Ok && r->Ok_0.num()
                == self.num() * other.num() && r->Ok_0.den() == self.den() * other.den()
                && r->Ok_0.meta.currency == self.meta.currency && r->Ok_0.wf_amount(),
            !self.meta.currency.eq_spec(other.meta.currency) ==> r is Err && r->Err_0
                == Error::MismatchedCurrency,
    {
        if !self.meta.currency.equals(&other.meta.currency) {
            return Err(Error::MismatchedCurrency);
        }
        match self.value.multiply(&other.value) {
            Ok(value) => Ok(FractionLike { value, meta: self.meta_duplicate() }),
            Err(e) => Err(e),
        }
    }

    /// Exact division of two amounts of the same asset; amounts of
    /// different assets are rejected as mismatched, and a zero divisor is
    /// a division by zero.
    pub fn divide(&self, other: &CurrencyAmount) -> (r: Result<CurrencyAmount, Error>)
        requires
            self.wf_amount(),
            other.wf_amount(),
        ensures
            self.meta.currency.eq_spec(other.meta.currency) && other.num() != 0 ==> r is Ok
                && r->Ok_0.num() == self.num() * other.den() && r->Ok_0.den() == self.den()
                * other.num() && r->Ok_0.meta.currency == self.meta.currency
                && r->Ok_0.wf_amount(),
            self.meta.currency.eq_spec(other.meta.currency) && other.num() == 0 ==> r is Err
                && r->Err_0 == Error::DivisionByZero,
            !self.meta.currency.eq_spec(other.meta.currency) ==> r is Err && r->Err_0
                == Error::MismatchedCurrency,
    {
        if !self.meta.currency.equals(&other.meta.currency) {
            return Err(Error::MismatchedCurrency);
        }
        match self.value.divide(&other.value) {
            Ok(value) => Ok(FractionLike { value, meta: self.meta_duplicate() }),
            Err(e) => Err(e),
        }
    }
}

impl PartialEq for FractionLike<CurrencyMeta> {
    /// Two amounts are equal when they denote the same asset and the same
    /// exact rational quantity, by cross-multiplication.
    fn eq(&self, other: &Self) -> (r: bool) {
        if !self.meta.currency.equals(&other.meta.currency) {
            return false;
        }
        let a = big_mul(self.value.numerator(), other.value.denominator());
        let b = big_mul(other.value.numerator(), self.value.denominator());
        big_eq(&a, &b)
    }
}

impl vstd::std_specs::cmp::PartialEqSpecImpl for FractionLike<CurrencyMeta> {
    open spec fn obeys_eq_spec() -> bool {
        true
    }

    open spec fn eq_spec(&self, other: &FractionLike<CurrencyMeta>) -> bool {
        self.meta.currency.eq_spec(other.meta.currency) && self.value.same_value(other.value)
    }
}

} // verus!
