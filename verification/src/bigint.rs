//! Trusted boundary around `num_bigint::BigInt`.
//!
//! The rational core stores its numerators and denominators as
//! arbitrary-precision integers.  Verus sees the outside type as opaque, so
//! its mathematical value is given a name, `big_value`, and every call into
//! the outside crate goes through a small wrapper here whose contract states
//! what the crate's source shows about that value.  Everything above this
//! module is verified against these contracts alone.

use vstd::prelude::*;
use num_bigint::BigInt;
use num_integer::Integer;
use num_traits::Signed;
use num_traits::ToPrimitive;

verus! {

#[verifier::external_type_specification]
#[verifier::external_body]
pub struct ExBigInt(BigInt);

/// The mathematical integer that a `BigInt` holds.
pub uninterp spec fn big_value(b: BigInt) -> int;

/// Relies on `<BigInt as From<u64>>::from`: the result holds the given value.
#[verifier::external_body]
pub(crate) fn big_from_u64(x: u64) -> (r: BigInt)
    ensures
        big_value(r) == x as int,
{
    BigInt::from(x)
}

/// Relies on `<BigInt as Clone>::clone`: the copy holds the same value.
#[verifier::external_body]
pub(crate) fn big_clone(a: &BigInt) -> (r: BigInt)
    ensures
        big_value(r) == big_value(*a),
{
    a.clone()
}

/// Relies on `<&BigInt as Add>::add`: arbitrary-precision exact addition.
#[verifier::external_body]
pub(crate) fn big_add(a: &BigInt, b: &BigInt) -> (r: BigInt)
    ensures
        big_value(r) == big_value(*a) + big_value(*b),
{
    a + b
}

/// Relies on `<&BigInt as Sub>::sub`: arbitrary-precision exact subtraction.
#[verifier::external_body]
pub(crate) fn big_sub(a: &BigInt, b: &BigInt) -> (r: BigInt)
    ensures
        big_value(r) == big_value(*a) - big_value(*b),
{
    a - b
}

/// Relies on `<&BigInt as Mul>::mul`: arbitrary-precision exact
/// multiplication.
#[verifier::external_body]
pub(crate) fn big_mul(a: &BigInt, b: &BigInt) -> (r: BigInt)
    ensures
        big_value(r) == big_value(*a) * big_value(*b),
{
    a * b
}

/// Relies on `<BigInt as PartialOrd>::lt`: integers compare by value.
#[verifier::external_body]
pub(crate) fn big_lt(a: &BigInt, b: &BigInt) -> (r: bool)
    ensures
        r == (big_value(*a) < big_value(*b)),
{
    a < b
}

/// Relies on `<BigInt as PartialEq>::eq`: integers compare by value.
#[verifier::external_body]
pub(crate) fn big_eq(a: &BigInt, b: &BigInt) -> (r: bool)
    ensures
        r == (big_value(*a) == big_value(*b)),
{
    a == b
}

/// Relies on `<BigInt as Integer>::div_rem`: truncated division with the
/// remainder carrying the dividend's sign.  For a non-negative dividend and
/// a positive divisor this is Euclidean quotient and remainder.
#[verifier::external_body]
pub(crate) fn big_div_rem(a: &BigInt, b: &BigInt) -> (r: (BigInt, BigInt))
    requires
        big_value(*a) >= 0,
        big_value(*b) > 0,
    ensures
        big_value(r.0) == big_value(*a) / big_value(*b),
        big_value(r.1) == big_value(*a) % big_value(*b),
{
    a.div_rem(b)
}

/// Relies on `<BigInt as Signed>::abs`: the absolute value.
#[verifier::external_body]
pub(crate) fn big_abs(a: &BigInt) -> (r: BigInt)
    ensures
        big_value(r) == if big_value(*a) >= 0 { big_value(*a) } else { -big_value(*a) },
{
    a.abs()
}

/// Relies on `<BigInt as ToPrimitive>::to_u64`: conversion succeeds exactly
/// when the value fits in a `u64`, and then preserves it.
#[verifier::external_body]
pub(crate) fn big_to_u64(a: &BigInt) -> (r: Option<u64>)
    ensures
        r is Some <==> 0 <= big_value(*a) <= u64::MAX,
        r is Some ==> r->0 as int == big_value(*a),
{
    a.to_u64()
}

/// `10^e` as a mathematical integer.
pub open spec fn pow10(e: nat) -> nat
    decreases e,
{
    if e == 0 {
        1
    } else {
        10 * pow10((e - 1) as nat)
    }
}

pub broadcast proof fn lemma_pow10_pos(e: nat)
    ensures
        #[trigger] pow10(e) >= 1,
    decreases e,
{
    if e > 0 {
        lemma_pow10_pos((e - 1) as nat);
    }
}

pub proof fn lemma_pow10_adds(a: nat, b: nat)
    ensures
        pow10(a + b) == pow10(a) * pow10(b),
    decreases a,
{
    if a == 0 {
        assert(pow10(0 + b) == 1 * pow10(b));
    } else {
        lemma_pow10_adds((a - 1) as nat, b);
        assert(pow10(a + b) == 10 * pow10((a + b - 1) as nat));
        assert(pow10(a) * pow10(b) == 10 * (pow10((a - 1) as nat) * pow10(b)))
            by (nonlinear_arith)
            requires pow10(a) == 10 * pow10((a - 1) as nat),
        ;
    }
}

pub proof fn lemma_pow10_increases(a: nat, b: nat)
    requires
        a <= b,
    ensures
        pow10(a) <= pow10(b),
    decreases b,
{
    if a < b {
        lemma_pow10_increases(a, (b - 1) as nat);
        lemma_pow10_pos((b - 1) as nat);
    }
}

/// `10^e` as an arbitrary-precision integer, built by repeated
/// multiplication.
pub(crate) fn big_pow10(e: usize) -> (r: BigInt)
    ensures
        big_value(r) == pow10(e as nat),
{
    let ten = big_from_u64(10);
    let mut r = big_from_u64(1);
    let mut i: usize = 0;
    while i < e
        invariant
            0 <= i <= e,
            big_value(ten) == 10,
            big_value(r) == pow10(i as nat),
        decreases e - i,
    {
        r = big_mul(&r, &ten);
        i = i + 1;
    }
    r
}

} // verus!
