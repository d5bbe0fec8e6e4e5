//! A price: an exchange rate between a base and a quote currency, held as
//! the exact raw (smallest-unit) ratio together with the decimal-scalar
//! correction used only for display.
//!
//! The stored numerator/denominator always represent the raw exchange
//! ratio; `adjusted_for_decimals` applies the scalar
//! `10^base.decimals / 10^quote.decimals` to produce the human-readable
//! value, and the formatting calls render that adjusted value.

use vstd::prelude::*;
use num_bigint::BigInt;
use crate::Error;
use crate::Rounding;
use crate::bigint::{big_value, big_clone, big_pow10, pow10, lemma_pow10_pos};
use crate::currency::Currency;
use crate::currency_amount::{CurrencyAmount, CurrencyMeta};
use crate::decimal::{fixed_repr, sig_repr};
use crate::fraction::{Fraction, FractionLike};

verus! {

/// The payload of a price: the currency pair and the decimal-correction
/// scalar `10^base.decimals / 10^quote.decimals`.
#[derive(Debug)]
pub struct PriceMeta {
    /// The currency the rate is quoted from.
    pub base_currency: Currency,
    /// The currency the rate is quoted into.
    pub quote_currency: Currency,
    /// The display scalar `10^base.decimals / 10^quote.decimals`.
    pub scalar: Fraction,
}

/// An exchange rate between two assets, as an exact raw ratio.
pub type Price = FractionLike<PriceMeta>;

impl FractionLike<PriceMeta> {
    /// Well-formedness: the rational value and both currencies are well
    /// formed, and the stored scalar is exactly
    /// `10^base.decimals / 10^quote.decimals`.
    pub open spec fn wf_price(self) -> bool {
        &&& self.wf_value()
        &&& self.meta.base_currency.wf()
        &&& self.meta.quote_currency.wf()
        &&& self.meta.scalar.num() == pow10(self.meta.base_currency.spec_decimals() as nat)
        &&& self.meta.scalar.den() == pow10(self.meta.quote_currency.spec_decimals() as nat)
    }

    /// The numerator of the display value: the raw numerator scaled by
    /// `10^base.decimals`.
    pub open spec fn adjusted_num(self) -> int {
        self.num() * pow10(self.meta.base_currency.spec_decimals() as nat)
    }

    /// The denominator of the display value: the raw denominator scaled
    /// by `10^quote.decimals`.
    pub open spec fn adjusted_den(self) -> int {
        self.den() * pow10(self.meta.quote_currency.spec_decimals() as nat)
    }

    /// Builds a price from the raw ratio `numerator / denominator`
    /// between the two currencies; a zero denominator is rejected, and
    /// the ratio is stored exactly as given.
    pub fn new(
        base_currency: Currency,
        quote_currency: Currency,
        denominator: BigInt,
        numerator: BigInt,
    ) -> (r: Result<Price, Error>)
        requires
            base_currency.wf(),
            quote_currency.wf(),
        ensures
            big_value(denominator) != 0 ==> r is Ok && r->Ok_0.num() == big_value(numerator)
                && r->Ok_0.den() == big_value(denominator) && r->Ok_0.meta.base_currency
                == base_currency && r->Ok_0.meta.quote_currency == quote_currency
                && r->Ok_0.wf_price(),
            big_value(denominator) == 0 ==> r is Err && r->Err_0 == Error::DivisionByZero,
    {
        let bs = big_pow10(base_currency.decimals() as usize);
        let qs = big_pow10(quote_currency.decimals() as usize);
        proof {
            lemma_pow10_pos(quote_currency.spec_decimals() as nat);
        }
        let scalar = match Fraction::new(bs, qs) {
            Ok(f) => f,
            Err(e) => {
                proof {
                    assert(false);
                }
                return Err(e);
            },
        };
        FractionLike::from_parts(
            numerator,
            denominator,
            PriceMeta { base_currency, quote_currency, scalar },
        )
    }

    /// Builds the price observed between two currency amounts, as the
    /// rational quotient `quote_amount / base_amount` of their raw
    /// values; a base amount of zero is rejected.  The stored ratio
    /// matches the ratio of raw on-chain amounts, independent of
    /// decimals.
    pub fn from_currency_amounts(base_amount: CurrencyAmount, quote_amount: CurrencyAmount) -> (r:
        Result<Price, Error>)
        requires
            base_amount.wf_amount(),
            quote_amount.wf_amount(),
        ensures
            base_amount.num() != 0 ==> r is Ok && r->Ok_0.num() == quote_amount.num()
                * base_amount.den() && r->Ok_0.den() == quote_amount.den() * base_amount.num()
                && r->Ok_0.meta.base_currency == base_amount.meta.currency
                && r->Ok_0.meta.quote_currency == quote_amount.meta.currency
                && r->Ok_0.wf_price(),
            base_amount.num() == 0 ==> r is Err && r->Err_0 == Error::DivisionByZero,
    {
        let res = match quote_amount.value.divide(&base_amount.value) {
            Ok(f) => f,
            Err(e) => {
                return Err(e);
            },
        };
        Self::new(
            base_amount.meta.currency.duplicate(),
            quote_amount.meta.currency.duplicate(),
            big_clone(res.denominator()),
            big_clone(res.numerator()),
        )
    }

    /// Flips the price: base and quote currencies swap and the ratio is
    /// inverted exactly, with no information loss.  A zero price cannot
    /// be inverted and is rejected.
    pub fn invert(&self) -> (r: Result<Price, Error>)
        requires
            self.wf_price(),
        ensures
            self.num() != 0 ==> r is Ok && r->Ok_0.num() == self.den() && r->Ok_0.den()
                == self.num() && r->Ok_0.meta.base_currency == self.meta.quote_currency
                && r->Ok_0.meta.quote_currency == self.meta.base_currency && r->Ok_0.wf_price(),
            self.num() == 0 ==> r is Err && r->Err_0 == Error::DivisionByZero,
    {
        Price::new(
            self.meta.quote_currency.duplicate(),
            self.meta.base_currency.duplicate(),
            big_clone(self.value.numerator()),
            big_clone(self.value.denominator()),
        )
    }

    /// Composes two exchange rates: requires this price's quote currency
    /// to equal the other's base currency, and multiplies the underlying
    /// ratios exactly, reattaching the combined currency pair.  A
    /// mismatched pair is rejected, and nothing else ever fails.
    pub fn multiply(&self, other: &Price) -> (r: Result<Price, Error>)
        requires
            self.wf_price(),
            other.wf_price(),
        ensures
            self.meta.quote_currency.eq_spec(other.meta.base_currency) ==> r is Ok
                && r->Ok_0.num() == self.num() * other.num() && r->Ok_0.den() == self.den()
                * other.den() && r->Ok_0.meta.base_currency == self.meta.base_currency
                && r->Ok_0.meta.quote_currency == other.meta.quote_currency
                && r->Ok_0.wf_price(),
            !self.meta.quote_currency.eq_spec(other.meta.base_currency) ==> r is Err && r->Err_0
                == Error::MismatchedCurrency,
    {
        if !self.meta.quote_currency.equals(&other.meta.base_currency) {
            return Err(Error::MismatchedCurrency);
        }
        let fraction = match self.value.multiply(&other.value) {
            Ok(f) => f,
            Err(e) => {
                return Err(e);
            },
        };
        Price::new(
            self.meta.base_currency.duplicate(),
            other.meta.quote_currency.duplicate(),
            big_clone(fraction.denominator()),
            big_clone(fraction.numerator()),
        )
    }

    /// Converts an amount of the base currency into the quote currency:
    /// requires the amount's currency to equal the base currency, and
    /// multiplies the raw values exactly.  A mismatched amount is
    /// rejected, and nothing else ever fails.
    pub fn quote(&self, currency_amount: CurrencyAmount) -> (r: Result<CurrencyAmount, Error>)
        requires
            self.wf_price(),
            currency_amount.wf_amount(),
        ensures
            currency_amount.meta.currency.eq_spec(self.meta.base_currency) ==> r is Ok
                && r->Ok_0.num() == self.num() * currency_amount.num() && r->Ok_0.den()
                == self.den() * currency_amount.den() && r->Ok_0.meta.currency
                == self.meta.quote_currency && r->Ok_0.wf_amount(),
            !currency_amount.meta.currency.eq_spec(self.meta.base_currency) ==> r is Err
                && r->Err_0 == Error::MismatchedCurrency,
    {
        if !currency_amount.meta.currency.equals(&self.meta.base_currency) {
            return Err(Error::MismatchedCurrency);
        }
        let fraction = match self.value.multiply(&currency_amount.value) {
            Ok(f) => f,
            Err(e) => {
                return Err(e);
            },
        };
        CurrencyAmount::from_fractional_amount(
            self.meta.quote_currency.duplicate(),
            big_clone(fraction.numerator()),
            big_clone(fraction.denominator()),
        )
    }

    /// The display value: the raw ratio multiplied by the decimal
    /// scalar.  Never fails on a well-formed price.
    pub fn adjusted_for_decimals(&self) -> (r: Result<Fraction, Error>)
        requires
            self.wf_price(),
        ensures
            r is Ok,
            r->Ok_0.num() == self.adjusted_num(),
            r->Ok_0.den() == self.adjusted_den(),
            r->Ok_0.wf(),
    {
        proof {
            lemma_pow10_pos(self.meta.quote_currency.spec_decimals() as nat);
        }
        self.value.multiply(&self.meta.scalar)
    }

    /// Renders the display value keeping exactly `significant_digits`
    /// digits from its first non-zero digit, under the given rounding
    /// policy.
    pub fn to_significant(&self, significant_digits: u8, rounding: Rounding) -> (r: Result<
        String,
        Error,
    >)
        requires
            self.wf_price(),
            significant_digits >= 1,
        ensures
            r is Ok,
            r->Ok_0@ == sig_repr(
                self.adjusted_num(),
                self.adjusted_den(),
                significant_digits as nat,
                rounding,
            ),
    {
        let adjusted = match self.adjusted_for_decimals() {
            Ok(f) => f,
            Err(e) => {
                proof {
                    assert(false);
                }
                return Err(e);
            },
        };
        Ok(adjusted.to_significant(significant_digits, rounding))
    }

    /// Renders the display value with exactly `decimal_places` digits
    /// after the decimal point, under the given rounding policy.
    pub fn to_fixed(&self, decimal_places: u8, rounding: Rounding) -> (r: Result<String, Error>)
        requires
            self.wf_price(),
        ensures
            r is Ok,
            r->Ok_0@ == fixed_repr(
                self.adjusted_num(),
                self.adjusted_den(),
                decimal_places as nat,
                rounding,
            ),
    {
        let adjusted = match self.adjusted_for_decimals() {
            Ok(f) => f,
            Err(e) => {
                proof {
                    assert(false);
                }
                return Err(e);
            },
        };
        Ok(adjusted.to_fixed(decimal_places, rounding))
    }
}

/// Inverting a price twice reproduces the original numerator/denominator
/// pair and currency pair exactly: the hypotheses are the contracts of
/// the two `invert` calls, and the conclusion is bit-exact equality of
/// the ratio, with no rounding anywhere.
pub proof fn lemma_invert_involution(p: Price, q: Price, r: Price)
    requires
        p.wf_price(),
        p.num() != 0,
        q.num() == p.den() && q.den() == p.num(),
        q.meta.base_currency == p.meta.quote_currency,
        q.meta.quote_currency == p.meta.base_currency,
        r.num() == q.den() && r.den() == q.num(),
        r.meta.base_currency == q.meta.quote_currency,
        r.meta.quote_currency == q.meta.base_currency,
    ensures
        r.num() == p.num(),
        r.den() == p.den(),
        r.meta.base_currency == p.meta.base_currency,
        r.meta.quote_currency == p.meta.quote_currency,
{
}

/// Rearranging the same five factors on both sides of a product.
#[verifier::rlimit(100)]
proof fn lemma_factor_shuffle(pn: int, pd: int, ad: int, bd: int, s: int)
    ensures
        (pn * s) * ((pd * ad) * (pd * bd)) == ((pn * pd) * s) * (pd * (ad * bd)),
{
    assert((pd * ad) * (pd * bd) == pd * (pd * (ad * bd))) by (nonlinear_arith);
    assert((pn * s) * (pd * (pd * (ad * bd))) == ((pn * pd) * s) * (pd * (ad * bd)))
        by (nonlinear_arith);
}

/// `quote` is linear: quoting the sum of two base-currency amounts and
/// summing the two quoted amounts give the same exact rational value.
/// The left pair is `quote(a.add(b))` and the right pair is
/// `quote(a).add(quote(b))`, each written out from the contracts of
/// `add` and `quote`; the conclusion is the cross-multiplied value
/// equality that amount equality checks.
pub proof fn lemma_quote_linear(p: Price, a: CurrencyAmount, b: CurrencyAmount)
    requires
        p.wf_price(),
        a.wf_amount(),
        b.wf_amount(),
        a.meta.currency.eq_spec(p.meta.base_currency),
        b.meta.currency.eq_spec(p.meta.base_currency),
    ensures
        a.meta.currency.eq_spec(b.meta.currency),
        ({
            let sum_n = a.num() * b.den() + b.num() * a.den();
            let sum_d = a.den() * b.den();
            let lhs_n = p.num() * sum_n;
            let lhs_d = p.den() * sum_d;
            let rhs_n = (p.num() * a.num()) * (p.den() * b.den()) + (p.num() * b.num()) * (p.den()
                * a.den());
            let rhs_d = (p.den() * a.den()) * (p.den() * b.den());
            lhs_n * rhs_d == rhs_n * lhs_d
        }),
{
    let pn = p.num();
    let pd = p.den();
    let an = a.num();
    let ad = a.den();
    let bn = b.num();
    let bd = b.den();
    let s = an * bd + bn * ad;
    assert((pn * an) * (pd * bd) == (pn * pd) * (an * bd)) by (nonlinear_arith);
    assert((pn * bn) * (pd * ad) == (pn * pd) * (bn * ad)) by (nonlinear_arith);
    assert((pn * pd) * (an * bd) + (pn * pd) * (bn * ad) == (pn * pd) * s) by (nonlinear_arith)
        requires s == an * bd + bn * ad,
    ;
    lemma_factor_shuffle(pn, pd, ad, bd, s);
}

} // verus!
