//! The rational core: an exact numerator/denominator pair, and the
//! metadata-attached fraction that carries an arbitrary payload through
//! every arithmetic result.
//!
//! Values are never reduced to lowest terms: exactness is preserved across
//! chained operations, and reduction or rounding happens only at formatting
//! time.  Comparison works by cross-multiplication, never through floating
//! point.

use vstd::prelude::*;
use num_bigint::BigInt;
use crate::Error;
use crate::Rounding;
use crate::bigint::{big_value, big_from_u64, big_clone, big_add, big_sub, big_mul, big_eq,
    big_lt};
use crate::decimal::{fixed_repr, sig_repr, format_fixed, format_significant};

verus! {

/// An exact rational value.  The denominator is never zero for a
/// well-formed value, and the pair is stored exactly as given: no implicit
/// reduction ever happens.
#[derive(Debug)]
pub struct Fraction {
    numerator: BigInt,
    denominator: BigInt,
}

impl Fraction {
    /// The numerator as a mathematical integer.
    pub closed spec fn num(self) -> int {
        big_value(self.numerator)
    }

    /// The denominator as a mathematical integer.
    pub closed spec fn den(self) -> int {
        big_value(self.denominator)
    }

    /// Well-formedness: the denominator is non-zero.
    pub open spec fn wf(self) -> bool {
        self.den() != 0
    }

    /// Whether two rational values are equal, by cross-multiplication.
    pub open spec fn same_value(self, other: Fraction) -> bool {
        self.num() * other.den() == other.num() * self.den()
    }

    /// Whether this rational value is strictly below the other, by
    /// cross-multiplication corrected for the denominators' signs.
    pub open spec fn below(self, other: Fraction) -> bool {
        (self.num() * other.den() - other.num() * self.den()) * (self.den() * other.den()) < 0
    }

    /// Builds the rational value `numerator / denominator`; a zero
    /// denominator is rejected, and the pair is stored exactly as given.
    pub fn new(numerator: BigInt, denominator: BigInt) -> (r: Result<Fraction, Error>)
        ensures
            big_value(denominator) != 0 ==> r is Ok && r->Ok_0.num() == big_value(numerator)
                && r->Ok_0.den() == big_value(denominator),
            big_value(denominator) == 0 ==> r is Err && r->Err_0 == Error::DivisionByZero,
    {
        let zero = big_from_u64(0);
        if big_eq(&denominator, &zero) {
            Err(Error::DivisionByZero)
        } else {
            Ok(Fraction { numerator, denominator })
        }
    }

    /// The stored numerator, exactly as constructed.
    pub fn numerator(&self) -> (r: &BigInt)
        ensures
            big_value(*r) == self.num(),
    {
        &self.numerator
    }

    /// The stored denominator, exactly as constructed.
    pub fn denominator(&self) -> (r: &BigInt)
        ensures
            big_value(*r) == self.den(),
    {
        &self.denominator
    }

    /// An exact copy of this rational value.
    pub fn duplicate(&self) -> (r: Fraction)
        ensures
            r.num() == self.num(),
            r.den() == self.den(),
    {
        Fraction { numerator: big_clone(&self.numerator), denominator: big_clone(&self.denominator) }
    }

    /// Exact addition: cross-multiplied numerators over the product of the
    /// denominators, with no intermediate rounding.  Never fails on
    /// well-formed operands.
    pub fn add(&self, other: &Fraction) -> (r: Result<Fraction, Error>)
        requires
            self.wf(),
            other.wf(),
        ensures
            r is Ok,
            r->Ok_0.num() == self.num() * other.den() + other.num() * self.den(),
            r->Ok_0.den() == self.den() * other.den(),
            r->Ok_0.wf(),
    {
        let a = big_mul(&self.numerator, &other.denominator);
        let b = big_mul(&other.numerator, &self.denominator);
        let n = big_add(&a, &b);
        let d = big_mul(&self.denominator, &other.denominator);
        proof {
            vstd::arithmetic::mul::lemma_mul_nonzero(self.den(), other.den());
        }
        Ok(Fraction { numerator: n, denominator: d })
    }

    /// Exact subtraction; never fails on well-formed operands.
    pub fn subtract(&self, other: &Fraction) -> (r: Result<Fraction, Error>)
        requires
            self.wf(),
            other.wf(),
        ensures
            r is Ok,
            r->Ok_0.num() == self.num() * other.den() - other.num() * self.den(),
            r->Ok_0.den() == self.den() * other.den(),
            r->Ok_0.wf(),
    {
        let a = big_mul(&self.numerator, &other.denominator);
        let b = big_mul(&other.numerator, &self.denominator);
        let n = big_sub(&a, &b);
        let d = big_mul(&self.denominator, &other.denominator);
        proof {
            vstd::arithmetic::mul::lemma_mul_nonzero(self.den(), other.den());
        }
        Ok(Fraction { numerator: n, denominator: d })
    }

    /// Exact multiplication; never fails on well-formed operands.
    pub fn multiply(&self, other: &Fraction) -> (r: Result<Fraction, Error>)
        requires
            self.wf(),
            other.wf(),
        ensures
            r is Ok,
            r->Ok_0.num() == self.num() * other.num(),
            r->Ok_0.den() == self.den() * other.den(),
            r->Ok_0.wf(),
    {
        let n = big_mul(&self.numerator, &other.numerator);
        let d = big_mul(&self.denominator, &other.denominator);
        proof {
            vstd::arithmetic::mul::lemma_mul_nonzero(self.den(), other.den());
        }
        Ok(Fraction { numerator: n, denominator: d })
    }

    /// Exact division: fails with a division-by-zero report exactly when
    /// the divisor's numerator is zero.
    pub fn divide(&self, other: &Fraction) -> (r: Result<Fraction, Error>)
        requires
            self.wf(),
            other.wf(),
        ensures
            other.num() != 0 ==> r is Ok && r->Ok_0.num() == self.num() * other.den()
                && r->Ok_0.den() == self.den() * other.num() && r->Ok_0.wf(),
            other.num() == 0 ==> r is Err && r->Err_0 == Error::DivisionByZero,
    {
        let zero = big_from_u64(0);
        if big_eq(&other.numerator, &zero) {
            Err(Error::DivisionByZero)
        } else {
            let n = big_mul(&self.numerator, &other.denominator);
            let d = big_mul(&self.denominator, &other.numerator);
            proof {
                vstd::arithmetic::mul::lemma_mul_nonzero(self.den(), other.num());
            }
            Ok(Fraction { numerator: n, denominator: d })
        }
    }

    /// Exact value equality, by cross-multiplication.
    pub fn equal_to(&self, other: &Fraction) -> (r: bool)
        requires
            self.wf(),
            other.wf(),
        ensures
            r == self.same_value(*other),
    {
        let a = big_mul(&self.numerator, &other.denominator);
        let b = big_mul(&other.numerator, &self.denominator);
        big_eq(&a, &b)
    }

    /// Exact strict ordering, by cross-multiplication corrected for the
    /// denominators' signs.
    pub fn less_than(&self, other: &Fraction) -> (r: bool)
        requires
            self.wf(),
            other.wf(),
        ensures
            r == self.below(*other),
    {
        let zero = big_from_u64(0);
        let a = big_mul(&self.numerator, &other.denominator);
        let b = big_mul(&other.numerator, &self.denominator);
        let cross = big_sub(&a, &b);
        let prod = big_mul(&self.denominator, &other.denominator);
        let ghost c = self.num() * other.den() - other.num() * self.den();
        let ghost p = self.den() * other.den();
        let r = if big_eq(&cross, &zero) {
            false
        } else {
            let cneg = big_lt(&cross, &zero);
            let pneg = big_lt(&prod, &zero);
            cneg != pneg
        };
        proof {
            vstd::arithmetic::mul::lemma_mul_nonzero(self.den(), other.den());
            assert(c * p < 0 <==> ((c < 0 && p > 0) || (c > 0 && p < 0))) by (nonlinear_arith)
                requires p != 0,
            ;
        }
        r
    }

    /// Renders the value with exactly `decimal_places` digits after the
    /// decimal point, under the given rounding policy.
    pub fn to_fixed(&self, decimal_places: u8, rounding: Rounding) -> (r: String)
        requires
            self.wf(),
        ensures
            r@ == fixed_repr(self.num(), self.den(), decimal_places as nat, rounding),
    {
        format_fixed(&self.numerator, &self.denominator, decimal_places, rounding)
    }

    /// Renders the value keeping exactly `significant_digits` digits from
    /// its first non-zero digit, under the given rounding policy.
    pub fn to_significant(&self, significant_digits: u8, rounding: Rounding) -> (r: String)
        requires
            self.wf(),
            significant_digits >= 1,
        ensures
            r@ == sig_repr(self.num(), self.den(), significant_digits as nat, rounding),
    {
        format_significant(&self.numerator, &self.denominator, significant_digits, rounding)
    }
}

/// A rational value together with an immutable payload that every
/// arithmetic result carries forward unchanged.  The specializations
/// decide how payloads combine.
#[derive(Debug)]
pub struct FractionLike<M> {
    /// The underlying rational value.
    pub value: Fraction,
    /// The metadata payload.
    pub meta: M,
}

impl<M> FractionLike<M> {
    /// The numerator as a mathematical integer.
    pub open spec fn num(self) -> int {
        self.value.num()
    }

    /// The denominator as a mathematical integer.
    pub open spec fn den(self) -> int {
        self.value.den()
    }

    /// Well-formedness of the underlying rational value.
    pub open spec fn wf_value(self) -> bool {
        self.value.wf()
    }

    /// Builds a metadata-attached fraction; a zero denominator is
    /// rejected, and the pair is stored exactly as given.
    pub fn from_parts(numerator: BigInt, denominator: BigInt, meta: M) -> (r: Result<FractionLike<M>, Error>)
        ensures
            big_value(denominator) != 0 ==> r is Ok && r->Ok_0.num() == big_value(numerator)
                && r->Ok_0.den() == big_value(denominator) && r->Ok_0.meta == meta,
            big_value(denominator) == 0 ==> r is Err && r->Err_0 == Error::DivisionByZero,
    {
        match Fraction::new(numerator, denominator) {
            Ok(value) => Ok(FractionLike { value, meta }),
            Err(e) => Err(e),
        }
    }

    /// The stored numerator, exactly as constructed.
    pub fn numerator(&self) -> (r: &BigInt)
        ensures
            big_value(*r) == self.num(),
    {
        self.value.numerator()
    }

    /// The stored denominator, exactly as constructed.
    pub fn denominator(&self) -> (r: &BigInt)
        ensures
            big_value(*r) == self.den(),
    {
        self.value.denominator()
    }

    /// The underlying rational value, without the payload.
    pub fn as_fraction(&self) -> (r: Fraction)
        ensures
            r.num() == self.num(),
            r.den() == self.den(),
    {
        self.value.duplicate()
    }
}

} // verus!
