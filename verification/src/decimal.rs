//! Deterministic decimal-string rendering of exact rational values.
//!
//! Everything here works on the exact numerator/denominator pair: the value
//! is scaled by a power of ten, divided with an explicit rounding policy,
//! and its digits are extracted one by one.  No floating-point conversion
//! ever happens, so the output is exact for inputs of any magnitude.

use vstd::prelude::*;
use vstd::string::StringExecFns;
use num_bigint::BigInt;
use crate::Rounding;
use crate::bigint::{big_value, big_from_u64, big_clone, big_add, big_mul, big_lt, big_eq,
    big_div_rem, big_abs, big_to_u64, big_pow10, pow10, lemma_pow10_pos};

verus! {

/// The character for one decimal digit.
pub open spec fn digit_char(d: int) -> char {
    if d == 0 {
        '0'
    } else if d == 1 {
        '1'
    } else if d == 2 {
        '2'
    } else if d == 3 {
        '3'
    } else if d == 4 {
        '4'
    } else if d == 5 {
        '5'
    } else if d == 6 {
        '6'
    } else if d == 7 {
        '7'
    } else if d == 8 {
        '8'
    } else {
        '9'
    }
}

/// The decimal digits of `v`, most significant first, with no leading
/// zeros (`0` itself is the single digit `0`).
pub open spec fn dec_digits(v: nat) -> Seq<char>
    decreases v,
{
    if v < 10 {
        seq![digit_char(v as int)]
    } else {
        dec_digits(v / 10).push(digit_char((v % 10) as int))
    }
}

/// The number of decimal digits of `v`.
pub open spec fn num_digits(v: nat) -> nat {
    dec_digits(v).len()
}

/// Digit values rendered as characters, in the given order.
pub open spec fn chars_of_digits(s: Seq<u64>) -> Seq<char> {
    s.map(|i: int, d: u64| digit_char(d as int))
}

/// Digit values rendered as characters, in reverse order.
pub open spec fn rev_chars(s: Seq<u64>) -> Seq<char> {
    Seq::new(s.len(), |i: int| digit_char(s[s.len() - 1 - i] as int))
}

/// `k` zero characters.
pub open spec fn zeros(k: nat) -> Seq<char> {
    Seq::new(k, |i: int| '0')
}

/// `s` left-padded with zero characters to length at least `l`.
pub open spec fn pad_left(s: Seq<char>, l: nat) -> Seq<char> {
    if s.len() >= l {
        s
    } else {
        zeros((l - s.len()) as nat) + s
    }
}

/// The magnitude of `x`.
pub open spec fn abs_int(x: int) -> nat {
    if x >= 0 {
        x as nat
    } else {
        (-x) as nat
    }
}

/// Whether the rational value `n / d` is strictly negative.
pub open spec fn val_neg(n: int, d: int) -> bool {
    (n < 0 && d > 0) || (n > 0 && d < 0)
}

/// `n / d` taken to the nearest integer under the given rounding policy:
/// truncation, half away from zero, or away from zero.
pub open spec fn rounded_div(n: nat, d: nat, rounding: Rounding) -> nat
    recommends
        d > 0,
{
    let q = n / d;
    let r = n % d;
    match rounding {
        Rounding::RoundDown => q,
        Rounding::RoundHalfUp => if 2 * r >= d {
            q + 1
        } else {
            q
        },
        Rounding::RoundUp => if r > 0 {
            q + 1
        } else {
            q
        },
    }
}

/// The fixed-point rendering of `n / d` with exactly `p` digits after the
/// decimal point: the magnitude is scaled by `10^p` and rounded to an
/// integer, whose digits are split `p` places from the right.  With `p == 0`
/// no decimal point appears, and a minus sign is emitted exactly when the
/// value is negative and the rounded result is not zero.
pub open spec fn fixed_repr(n: int, d: int, p: nat, rounding: Rounding) -> Seq<char>
    recommends
        d != 0,
{
    let q = rounded_div(abs_int(n) * pow10(p), abs_int(d), rounding);
    let padded = pad_left(dec_digits(q), p + 1);
    let cut = padded.len() - p;
    let body = if p == 0 {
        padded
    } else {
        padded.take(cut as int) + seq!['.'] + padded.skip(cut as int)
    };
    if val_neg(n, d) && q != 0 {
        seq!['-'] + body
    } else {
        body
    }
}

/// The number of factors of ten needed to bring `n` up to at least `d`:
/// the smallest `m` with `n * 10^m >= d`, for `1 <= n < d`.
pub open spec fn exp10_below(n: nat, d: nat) -> nat
    recommends
        1 <= n < d,
    decreases (if d > n { (d - n) as nat } else { 0 }),
{
    if n == 0 {
        0
    } else if 10 * n >= d {
        1
    } else {
        1 + exp10_below(10 * n, d)
    }
}

/// The floor of the base-ten logarithm of `nn / dd`, for `nn, dd >= 1`.
pub open spec fn sig_exp(nn: nat, dd: nat) -> int
    recommends
        nn >= 1,
        dd >= 1,
{
    if nn >= dd {
        num_digits(nn / dd) as int - 1
    } else {
        -(exp10_below(nn, dd) as int)
    }
}

/// `v` with all trailing decimal zeros removed.
pub open spec fn strip_tz(v: nat) -> nat
    decreases v,
{
    if v >= 10 && v % 10 == 0 {
        strip_tz(v / 10)
    } else {
        v
    }
}

/// The digit characters laid out around the decimal point so that the
/// first digit has weight `10^e2`: an integer zero-filled on the right, a
/// number split by a point, or a sub-one value with leading zeros after
/// `0.`.
pub open spec fn sig_body(digits: Seq<char>, e2: int) -> Seq<char> {
    let ll = digits.len() as int;
    if e2 >= ll - 1 {
        digits + zeros((e2 - (ll - 1)) as nat)
    } else if e2 >= 0 {
        digits.take(e2 + 1) + seq!['.'] + digits.skip(e2 + 1)
    } else {
        seq!['0', '.'] + zeros((-e2 - 1) as nat) + digits
    }
}

/// The significant-digit rendering of `n / d`: the magnitude is rounded to
/// exactly `k` digits counted from its first non-zero digit, trailing
/// zeros of the rounded digit block are dropped, and the digits are laid
/// out at the value's magnitude (a rounding carry into the next power of
/// ten shifts the magnitude up by one).  Zero renders as `0`; a minus sign
/// is emitted for negative values.
pub open spec fn sig_repr(n: int, d: int, k: nat, rounding: Rounding) -> Seq<char>
    recommends
        d != 0,
        k >= 1,
{
    let nn = abs_int(n);
    let dd = abs_int(d);
    if nn == 0 {
        seq!['0']
    } else {
        let e = sig_exp(nn, dd);
        let t0 = if e + 1 <= k {
            rounded_div(nn * pow10((k - 1 - e) as nat), dd, rounding)
        } else {
            rounded_div(nn, dd * pow10((e + 1 - k) as nat), rounding)
        };
        let t = if t0 == pow10(k) {
            pow10((k - 1) as nat)
        } else {
            t0
        };
        let e2 = if t0 == pow10(k) {
            e + 1
        } else {
            e
        };
        let body = sig_body(dec_digits(strip_tz(t)), e2);
        if val_neg(n, d) {
            seq!['-'] + body
        } else {
            body
        }
    }
}

/// A value of `l` digits lies between `10^(l-1)` and `10^l`.
pub proof fn lemma_num_digits_bounds(v: nat)
    requires
        v >= 1,
    ensures
        num_digits(v) >= 1,
        pow10((num_digits(v) - 1) as nat) <= v < pow10(num_digits(v)),
    decreases v,
{
    if v < 10 {
        assert(num_digits(v) == 1);
    } else {
        vstd::arithmetic::div_mod::lemma_fundamental_div_mod(v as int, 10);
        lemma_num_digits_bounds(v / 10);
        let l = num_digits(v / 10);
        assert(num_digits(v) == l + 1);
        assert(pow10(l) == 10 * pow10((l - 1) as nat));
        assert(10 * pow10((l - 1) as nat) <= 10 * (v / 10)) by (nonlinear_arith)
            requires pow10((l - 1) as nat) <= v / 10,
        ;
        assert(v < 10 * (v / 10) + 10);
        assert(10 * (v / 10) + 10 <= 10 * pow10(l)) by (nonlinear_arith)
            requires v / 10 < pow10(l),
        ;
        assert(pow10((l + 1) as nat) == 10 * pow10(l));
    }
}

/// The defining bounds of `exp10_below`: one factor of ten fewer is still
/// below `d`, and the full count reaches `d`.
pub proof fn lemma_exp10_below_bounds(n: nat, d: nat)
    requires
        1 <= n < d,
    ensures
        exp10_below(n, d) >= 1,
        n * pow10(exp10_below(n, d)) >= d,
        n * pow10((exp10_below(n, d) - 1) as nat) < d,
    decreases d - n,
{
    let m = exp10_below(n, d);
    if 10 * n >= d {
        assert(m == 1);
        assert(pow10(0) == 1);
        assert(pow10(1) == 10);
        assert(n * 10 == 10 * n) by (nonlinear_arith);
        assert(n * 1 == n) by (nonlinear_arith);
    } else {
        lemma_exp10_below_bounds(10 * n, d);
        let m2 = exp10_below(10 * n, d);
        assert(m == 1 + m2);
        assert(pow10(m) == 10 * pow10(m2));
        assert(n * (10 * pow10(m2)) == (10 * n) * pow10(m2)) by (nonlinear_arith);
        assert(pow10(m2) == 10 * pow10((m2 - 1) as nat));
        assert(n * pow10((m - 1) as nat) == n * pow10(m2));
        assert(n * (10 * pow10((m2 - 1) as nat)) == (10 * n) * pow10((m2 - 1) as nat))
            by (nonlinear_arith);
    }
}

/// Only one count of factors of ten satisfies the `exp10_below` bounds.
pub proof fn lemma_exp10_below_unique(n: nat, d: nat, m: nat)
    requires
        1 <= n < d,
        m >= 1,
        n * pow10(m) >= d,
        n * pow10((m - 1) as nat) < d,
    ensures
        m == exp10_below(n, d),
{
    let m2 = exp10_below(n, d);
    lemma_exp10_below_bounds(n, d);
    if m < m2 {
        crate::bigint::lemma_pow10_increases(m, (m2 - 1) as nat);
        vstd::arithmetic::mul::lemma_mul_left_inequality(
            n as int, pow10(m) as int, pow10((m2 - 1) as nat) as int);
        assert(false);
    } else if m2 < m {
        crate::bigint::lemma_pow10_increases(m2, (m - 1) as nat);
        vstd::arithmetic::mul::lemma_mul_left_inequality(
            n as int, pow10(m2) as int, pow10((m - 1) as nat) as int);
        assert(false);
    }
}

/// A rounded quotient bracketed by multiples of the divisor is bracketed
/// by the multipliers.
pub proof fn lemma_rounded_div_bounds(a: nat, b: nat, lo: nat, hi: nat, rounding: Rounding)
    requires
        b >= 1,
        lo * b <= a,
        a < hi * b,
    ensures
        lo <= rounded_div(a, b, rounding) <= hi,
{
    assert(lo * b == b * lo) by (nonlinear_arith);
    vstd::arithmetic::div_mod::lemma_div_multiples_vanish(lo as int, b as int);
    vstd::arithmetic::div_mod::lemma_div_is_ordered(
        (lo * b) as int, a as int, b as int);
    assert((a as int) / (b as int) >= lo);
    assert(hi * b == b * hi) by (nonlinear_arith);
    vstd::arithmetic::div_mod::lemma_multiply_divide_lt(a as int, b as int, hi as int);
    assert(a as int * 1 == a as int) by (nonlinear_arith);
    assert(b as int * hi as int == hi as int * b as int) by (nonlinear_arith);
    assert((a as int) / (b as int) < hi);
}

/// The value `nn / dd` lies between `10^e` and `10^(e+1)` for
/// `e == sig_exp(nn, dd)`, stated by cross-multiplication on either side
/// of zero.
pub proof fn lemma_sig_exp_bounds(nn: nat, dd: nat)
    requires
        nn >= 1,
        dd >= 1,
    ensures
        sig_exp(nn, dd) >= 0 ==> dd * pow10(sig_exp(nn, dd) as nat) <= nn
            && nn < dd * pow10((sig_exp(nn, dd) + 1) as nat),
        sig_exp(nn, dd) < 0 ==> dd <= nn * pow10((-sig_exp(nn, dd)) as nat)
            && nn * pow10((-sig_exp(nn, dd) - 1) as nat) < dd,
{
    let e = sig_exp(nn, dd);
    if nn >= dd {
        let q = nn / dd;
        vstd::arithmetic::div_mod::lemma_div_is_ordered(dd as int, nn as int, dd as int);
        vstd::arithmetic::div_mod::lemma_div_by_self(dd as int);
        assert(q >= 1);
        lemma_num_digits_bounds(q);
        let l = num_digits(q);
        assert(e == l - 1);
        vstd::arithmetic::div_mod::lemma_fundamental_div_mod(nn as int, dd as int);
        assert(nn == dd * q + nn % dd);
        vstd::arithmetic::mul::lemma_mul_left_inequality(
            dd as int, pow10((l - 1) as nat) as int, q as int);
        assert(dd * pow10(e as nat) <= dd * q);
        assert(dd * q <= nn);
        vstd::arithmetic::mul::lemma_mul_left_inequality(
            dd as int, (q + 1) as int, pow10(l) as int);
        assert(dd * (q + 1) == dd * q + dd) by (nonlinear_arith);
        assert(nn < dd * (q + 1));
        assert(nn < dd * pow10((e + 1) as nat));
    } else {
        lemma_exp10_below_bounds(nn, dd);
    }
}

/// The `k`-digit rounded block of significant digits lies between
/// `10^(k-1)` and `10^k`.
pub proof fn lemma_sig_t0_bounds(nn: nat, dd: nat, k: nat, rounding: Rounding)
    requires
        nn >= 1,
        dd >= 1,
        k >= 1,
    ensures
        ({
            let e = sig_exp(nn, dd);
            let t0 = if e + 1 <= k {
                rounded_div(nn * pow10((k - 1 - e) as nat), dd, rounding)
            } else {
                rounded_div(nn, dd * pow10((e + 1 - k) as nat), rounding)
            };
            pow10((k - 1) as nat) <= t0 <= pow10(k)
        }),
{
    let e = sig_exp(nn, dd);
    lemma_sig_exp_bounds(nn, dd);
    crate::bigint::lemma_pow10_pos((k - 1) as nat);
    if e + 1 <= k {
        let s = (k - 1 - e) as nat;
        let a = nn * pow10(s);
        if e >= 0 {
            crate::bigint::lemma_pow10_adds(e as nat, s);
            assert(pow10((e as nat) + s) == pow10((k - 1) as nat));
            vstd::arithmetic::mul::lemma_mul_inequality(
                (dd * pow10(e as nat)) as int, nn as int, pow10(s) as int);
            assert((dd * pow10(e as nat)) * pow10(s) == dd * (pow10(e as nat) * pow10(s)))
                by (nonlinear_arith);
            assert(pow10((k - 1) as nat) * dd == dd * pow10((k - 1) as nat))
                by (nonlinear_arith);
            assert(pow10((k - 1) as nat) * dd <= a);
            crate::bigint::lemma_pow10_adds((e + 1) as nat, s);
            assert(pow10(((e + 1) as nat) + s) == pow10(k));
            crate::bigint::lemma_pow10_pos(s);
            vstd::arithmetic::mul::lemma_mul_strict_inequality(
                nn as int, (dd * pow10((e + 1) as nat)) as int, pow10(s) as int);
            assert((dd * pow10((e + 1) as nat)) * pow10(s)
                == dd * (pow10((e + 1) as nat) * pow10(s))) by (nonlinear_arith);
            assert(a < pow10(k) * dd) by (nonlinear_arith)
                requires
                    a < dd * (pow10(((e + 1) as nat) + s)),
                    pow10(((e + 1) as nat) + s) == pow10(k),
            ;
        } else {
            let m = (-e) as nat;
            assert(s == (k - 1) + m);
            crate::bigint::lemma_pow10_adds((k - 1) as nat, m);
            assert(nn * pow10(s) == nn * (pow10(m) * pow10((k - 1) as nat)))
                by (nonlinear_arith)
                requires pow10(s) == pow10((k - 1) as nat) * pow10(m),
            ;
            vstd::arithmetic::mul::lemma_mul_inequality(
                dd as int, (nn * pow10(m)) as int, pow10((k - 1) as nat) as int);
            assert(nn * (pow10(m) * pow10((k - 1) as nat))
                == (nn * pow10(m)) * pow10((k - 1) as nat)) by (nonlinear_arith);
            assert(pow10((k - 1) as nat) * dd <= a) by (nonlinear_arith)
                requires
                    dd * pow10((k - 1) as nat) <= a,
            ;
            crate::bigint::lemma_pow10_adds((m - 1) as nat, k);
            assert(s == (m - 1) + k);
            crate::bigint::lemma_pow10_pos(k);
            vstd::arithmetic::mul::lemma_mul_strict_inequality(
                (nn * pow10((m - 1) as nat)) as int, dd as int, pow10(k) as int);
            assert(nn * pow10(s) == (nn * pow10((m - 1) as nat)) * pow10(k))
                by (nonlinear_arith)
                requires pow10(s) == pow10((m - 1) as nat) * pow10(k),
            ;
            assert(a < pow10(k) * dd) by (nonlinear_arith)
                requires a < dd * pow10(k),
            ;
        }
        lemma_rounded_div_bounds(a, dd, pow10((k - 1) as nat), pow10(k), rounding);
    } else {
        let b2 = dd * pow10((e + 1 - k) as nat);
        crate::bigint::lemma_pow10_adds((e + 1 - k) as nat, (k - 1) as nat);
        assert(((e + 1 - k) as nat) + ((k - 1) as nat) == e as nat);
        assert(pow10((k - 1) as nat) * b2 == dd * pow10(e as nat)) by (nonlinear_arith)
            requires
                b2 == dd * pow10((e + 1 - k) as nat),
                pow10(e as nat) == pow10((e + 1 - k) as nat) * pow10((k - 1) as nat),
        ;
        crate::bigint::lemma_pow10_adds((e + 1 - k) as nat, k);
        assert(((e + 1 - k) as nat) + k == (e + 1) as nat);
        assert(pow10(k) * b2 == dd * pow10((e + 1) as nat)) by (nonlinear_arith)
            requires
                b2 == dd * pow10((e + 1 - k) as nat),
                pow10((e + 1) as nat) == pow10((e + 1 - k) as nat) * pow10(k),
        ;
        crate::bigint::lemma_pow10_pos((e + 1 - k) as nat);
        assert(b2 >= 1) by (nonlinear_arith)
            requires dd >= 1, pow10((e + 1 - k) as nat) >= 1, b2 == dd * pow10((e + 1 - k) as nat),
        ;
        lemma_rounded_div_bounds(nn, b2, pow10((k - 1) as nat), pow10(k), rounding);
    }
}

/// Stripping trailing zeros keeps the value positive.
pub proof fn lemma_strip_tz_pos(v: nat)
    requires
        v >= 1,
    ensures
        strip_tz(v) >= 1,
    decreases v,
{
    if v >= 10 && v % 10 == 0 {
        lemma_strip_tz_pos(v / 10);
    }
}

/// Whether a character is a decimal digit character.
pub open spec fn is_digit_char(c: char) -> bool {
    c == '0' || c == '1' || c == '2' || c == '3' || c == '4' || c == '5' || c == '6' || c == '7'
        || c == '8' || c == '9'
}

/// Every character of a decimal digit string is a digit.
pub proof fn lemma_dec_digits_are_digits(v: nat)
    ensures
        forall|i: int| 0 <= i < dec_digits(v).len() ==> is_digit_char(#[trigger] dec_digits(v)[i]),
    decreases v,
{
    if v < 10 {
        assert(dec_digits(v) == seq![digit_char(v as int)]);
    } else {
        lemma_dec_digits_are_digits(v / 10);
        let inner = dec_digits(v / 10);
        let c = digit_char((v % 10) as int);
        assert(dec_digits(v) == inner.push(c));
        assert forall|i: int| 0 <= i < dec_digits(v).len() implies is_digit_char(
            #[trigger] dec_digits(v)[i],
        ) by {
            if i < inner.len() {
                assert(dec_digits(v)[i] == inner[i]);
            } else {
                assert(dec_digits(v)[i] == c);
            }
        }
    }
}

/// A fixed-point rendering with zero decimal places never contains a
/// decimal point, for any rational value and any rounding policy.
pub proof fn lemma_fixed_zero_has_no_point(n: int, d: int, rounding: Rounding)
    requires
        d != 0,
    ensures
        forall|i: int| 0 <= i < fixed_repr(n, d, 0, rounding).len() ==> #[trigger] fixed_repr(
            n,
            d,
            0,
            rounding,
        )[i] != '.',
{
    let q = rounded_div(abs_int(n) * pow10(0), abs_int(d), rounding);
    lemma_dec_digits_are_digits(q);
    assert(dec_digits(q).len() >= 1);
    assert(pad_left(dec_digits(q), 1) == dec_digits(q));
    let rep = fixed_repr(n, d, 0, rounding);
    assert forall|i: int| 0 <= i < rep.len() implies rep[i] != '.' by {
        if val_neg(n, d) && q != 0 {
            assert(rep == seq!['-'] + dec_digits(q));
            if i > 0 {
                assert(rep[i] == dec_digits(q)[i - 1]);
            }
        } else {
            assert(rep == dec_digits(q));
        }
    }
}

/// Appends the character for one decimal digit.
pub(crate) fn push_digit(s: &mut String, d: u64)
    requires
        d < 10,
    ensures
        final(s)@ == old(s)@.push(digit_char(d as int)),
{
    if d == 0 {
        s.append("0");
        proof {
            reveal_strlit("0");
            assert(s@ =~= old(s)@.push(digit_char(d as int)));
        }
    } else if d == 1 {
        s.append("1");
        proof {
            reveal_strlit("1");
            assert(s@ =~= old(s)@.push(digit_char(d as int)));
        }
    } else if d == 2 {
        s.append("2");
        proof {
            reveal_strlit("2");
            assert(s@ =~= old(s)@.push(digit_char(d as int)));
        }
    } else if d == 3 {
        s.append("3");
        proof {
            reveal_strlit("3");
            assert(s@ =~= old(s)@.push(digit_char(d as int)));
        }
    } else if d == 4 {
        s.append("4");
        proof {
            reveal_strlit("4");
            assert(s@ =~= old(s)@.push(digit_char(d as int)));
        }
    } else if d == 5 {
        s.append("5");
        proof {
            reveal_strlit("5");
            assert(s@ =~= old(s)@.push(digit_char(d as int)));
        }
    } else if d == 6 {
        s.append("6");
        proof {
            reveal_strlit("6");
            assert(s@ =~= old(s)@.push(digit_char(d as int)));
        }
    } else if d == 7 {
        s.append("7");
        proof {
            reveal_strlit("7");
            assert(s@ =~= old(s)@.push(digit_char(d as int)));
        }
    } else if d == 8 {
        s.append("8");
        proof {
            reveal_strlit("8");
            assert(s@ =~= old(s)@.push(digit_char(d as int)));
        }
    } else {
        s.append("9");
        proof {
            reveal_strlit("9");
            assert(s@ =~= old(s)@.push(digit_char(d as int)));
        }
    }
}

/// The decimal digits of a non-negative integer, most significant first.
pub(crate) fn dec_string_of(v: &BigInt) -> (r: Vec<u64>)
    requires
        big_value(*v) >= 0,
    ensures
        chars_of_digits(r@) == dec_digits(big_value(*v) as nat),
        forall|i: int| 0 <= i < r@.len() ==> r@[i] < 10,
        r@.len() == num_digits(big_value(*v) as nat),
{
    let zero = big_from_u64(0);
    let ten = big_from_u64(10);
    let mut cur = big_clone(v);
    if big_eq(&cur, &zero) {
        let mut r: Vec<u64> = Vec::new();
        r.push(0);
        proof {
            assert(chars_of_digits(r@) =~= dec_digits(0));
        }
        return r;
    }
    let ghost v0: nat = big_value(*v) as nat;
    let mut acc: Vec<u64> = Vec::new();
    while !big_eq(&cur, &zero)
        invariant
            big_value(ten) == 10,
            big_value(zero) == 0,
            big_value(cur) >= 0,
            forall|i: int| 0 <= i < acc@.len() ==> acc@[i] < 10,
            big_value(cur) > 0 ==> dec_digits(v0) == dec_digits(big_value(cur) as nat)
                + rev_chars(acc@),
            big_value(cur) == 0 ==> dec_digits(v0) == rev_chars(acc@),
        decreases big_value(cur),
    {
        let ghost cv: nat = big_value(cur) as nat;
        let ghost old_acc = acc@;
        let qr = big_div_rem(&cur, &ten);
        let dig = big_to_u64(&qr.1).unwrap();
        acc.push(dig);
        proof {
            assert(rev_chars(acc@) =~= seq![digit_char(dig as int)] + rev_chars(old_acc));
            if cv < 10 {
                assert(cv % 10 == cv && cv / 10 == 0);
                assert(dec_digits(cv) =~= seq![digit_char(dig as int)]);
            } else {
                assert(dec_digits(cv) == dec_digits(cv / 10).push(digit_char((cv % 10) as int)));
                assert(dec_digits(cv) =~= dec_digits(cv / 10) + seq![digit_char(dig as int)]);
            }
            assert(dec_digits(cv) + rev_chars(old_acc)
                =~= (if cv < 10 { Seq::<char>::empty() } else { dec_digits(cv / 10) })
                    + rev_chars(acc@));
        }
        cur = qr.0;
    }
    let n = acc.len();
    let mut r: Vec<u64> = Vec::new();
    let mut i: usize = n;
    while i > 0
        invariant
            i <= n,
            n == acc@.len(),
            r@.len() == n - i,
            forall|j: int| 0 <= j < acc@.len() ==> acc@[j] < 10,
            forall|j: int| 0 <= j < r@.len() ==> r@[j] == acc@[n - 1 - j],
            dec_digits(v0) == rev_chars(acc@),
            big_value(*v) == v0,
        decreases i,
    {
        i = i - 1;
        r.push(acc[i]);
    }
    proof {
        assert(chars_of_digits(r@) =~= rev_chars(acc@));
    }
    r
}

/// Appends the characters of `digits[from..to]`.
pub(crate) fn push_digit_range(s: &mut String, digits: &Vec<u64>, from: usize, to: usize)
    requires
        from <= to <= digits@.len(),
        forall|i: int| 0 <= i < digits@.len() ==> digits@[i] < 10,
    ensures
        final(s)@ == old(s)@ + chars_of_digits(digits@).subrange(from as int, to as int),
{
    let mut k = from;
    while k < to
        invariant
            from <= k <= to <= digits@.len(),
            forall|i: int| 0 <= i < digits@.len() ==> digits@[i] < 10,
            s@ == old(s)@ + chars_of_digits(digits@).subrange(from as int, k as int),
        decreases to - k,
    {
        push_digit(s, digits[k]);
        proof {
            assert(s@ =~= old(s)@ + chars_of_digits(digits@).subrange(from as int, k + 1 as int));
        }
        k = k + 1;
    }
}

/// Appends `count` zero characters.
pub(crate) fn push_zeros(s: &mut String, count: usize)
    ensures
        final(s)@ == old(s)@ + zeros(count as nat),
{
    let mut k: usize = 0;
    while k < count
        invariant
            k <= count,
            s@ == old(s)@ + zeros(k as nat),
        decreases count - k,
    {
        push_digit(s, 0);
        proof {
            assert(s@ =~= old(s)@ + zeros((k + 1) as nat));
        }
        k = k + 1;
    }
}

/// The padded digit string of the scaled magnitude, split `p` places from
/// the right; with `p == 0` no decimal point appears.
pub open spec fn split_at_point(padded: Seq<char>, p: nat) -> Seq<char> {
    if p == 0 {
        padded
    } else {
        padded.take(padded.len() - p) + seq!['.'] + padded.skip(padded.len() - p)
    }
}

/// Builds the digit body: the digits left-padded with zeros to `places + 1`
/// characters, with the decimal point `places` characters from the right.
fn render_split(digits: &Vec<u64>, places: usize) -> (r: String)
    requires
        digits@.len() >= 1,
        places + 1 <= usize::MAX,
        forall|i: int| 0 <= i < digits@.len() ==> digits@[i] < 10,
    ensures
        r@ == split_at_point(pad_left(chars_of_digits(digits@), places as nat + 1), places as nat),
{
    let len = digits.len();
    let total = if len >= places + 1 {
        len
    } else {
        places + 1
    };
    let cut = total - places;
    let pad = total - len;
    let ghost padded = pad_left(chars_of_digits(digits@), places as nat + 1);
    proof {
        assert(padded.len() == total);
        assert forall|i: int| 0 <= i < padded.len() implies padded[i] == (if i < pad {
            '0'
        } else {
            chars_of_digits(digits@)[i - pad]
        }) by {
            if len >= places + 1 {
                assert(padded == chars_of_digits(digits@));
            } else {
                assert(padded == zeros(((places + 1) - len) as nat) + chars_of_digits(digits@));
            }
        }
    }
    let mut s = String::new();
    push_zeros(&mut s, if pad < cut {
        pad
    } else {
        cut
    });
    if pad < cut {
        push_digit_range(&mut s, digits, 0, cut - pad);
    }
    proof {
        assert(s@ =~= padded.take(cut as int));
    }
    if places > 0 {
        s.append(".");
        proof {
            reveal_strlit(".");
        }
        let ghost mid = s@;
        if pad > cut {
            push_zeros(&mut s, pad - cut);
        }
        push_digit_range(&mut s, digits, if pad > cut {
            0
        } else {
            cut - pad
        }, len);
        proof {
            assert(s@ =~= mid + padded.skip(cut as int));
        }
    } else {
        proof {
            assert(padded.take(cut as int) =~= padded);
        }
    }
    s
}

/// Renders `n / d` with exactly `places` digits after the decimal point,
/// padding with trailing zeros where the exact value terminates early and
/// rounding at the boundary under the given policy.  With `places == 0` the
/// result is an integer string with no decimal point.
pub(crate) fn format_fixed(n: &BigInt, d: &BigInt, places: u8, rounding: Rounding) -> (r: String)
    requires
        big_value(*d) != 0,
    ensures
        r@ == fixed_repr(big_value(*n), big_value(*d), places as nat, rounding),
{
    let zero = big_from_u64(0);
    let nn = big_abs(n);
    let dd = big_abs(d);
    let pw = big_pow10(places as usize);
    let scaled = big_mul(&nn, &pw);
    let q = rounded_div_exec(&scaled, &dd, rounding);
    let digits = dec_string_of(&q);
    let ghost nv = big_value(*n);
    let ghost dv = big_value(*d);
    let ghost qv = rounded_div(abs_int(nv) * pow10(places as nat), abs_int(dv), rounding);
    let body = render_split(&digits, places as usize);
    proof {
        assert(big_value(q) == qv);
        assert(chars_of_digits(digits@) == dec_digits(qv));
        if nv == 0 {
            vstd::arithmetic::div_mod::lemma_div_of0(abs_int(dv) as int);
            vstd::arithmetic::div_mod::lemma_small_mod(0, abs_int(dv));
            assert(abs_int(nv) == 0);
            assert(abs_int(nv) * pow10(places as nat) == 0) by (nonlinear_arith)
                requires abs_int(nv) == 0,
            ;
            assert(qv == 0);
        }
    }
    let neg = {
        let nneg = big_lt(n, &zero);
        let dneg = big_lt(d, &zero);
        nneg != dneg
    };
    if neg && !big_eq(&q, &zero) {
        let mut s = String::new();
        s.append("-");
        s.append(body.as_str());
        proof {
            reveal_strlit("-");
            assert(s@ =~= seq!['-'] + body@);
        }
        s
    } else {
        body
    }
}

/// `n / d` rounded to an integer under the given policy, on exact values.
pub(crate) fn rounded_div_exec(n: &BigInt, d: &BigInt, rounding: Rounding) -> (r: BigInt)
    requires
        big_value(*n) >= 0,
        big_value(*d) > 0,
    ensures
        big_value(r) == rounded_div(big_value(*n) as nat, big_value(*d) as nat, rounding),
{
    let qr = big_div_rem(n, d);
    match rounding {
        Rounding::RoundDown => qr.0,
        Rounding::RoundHalfUp => {
            let two_r = big_add(&qr.1, &qr.1);
            if !big_lt(&two_r, d) {
                let one = big_from_u64(1);
                big_add(&qr.0, &one)
            } else {
                qr.0
            }
        },
        Rounding::RoundUp => {
            let zero = big_from_u64(0);
            if big_eq(&qr.1, &zero) {
                qr.0
            } else {
                let one = big_from_u64(1);
                big_add(&qr.0, &one)
            }
        },
    }
}

/// The floor of the base-ten logarithm of `nn / dd`, as a sign and a
/// magnitude.
fn sig_exponent_exec(nn: &BigInt, dd: &BigInt) -> (r: (bool, usize))
    requires
        big_value(*nn) >= 1,
        big_value(*dd) >= 1,
    ensures
        sig_exp(big_value(*nn) as nat, big_value(*dd) as nat) == if r.0 {
            -(r.1 as int)
        } else {
            r.1 as int
        },
        r.0 ==> r.1 >= 1,
        !r.0 ==> r.1 < usize::MAX,
{
    let ghost nv = big_value(*nn) as nat;
    let ghost dv = big_value(*dd) as nat;
    if !big_lt(nn, dd) {
        let qr = big_div_rem(nn, dd);
        let qdigits = dec_string_of(&qr.0);
        let l = qdigits.len();
        proof {
            vstd::arithmetic::div_mod::lemma_div_by_self(dv as int);
            vstd::arithmetic::div_mod::lemma_div_is_ordered(dv as int, nv as int, dv as int);
            lemma_num_digits_bounds((nv / dv) as nat);
        }
        (false, l - 1)
    } else {
        let ddigits = dec_string_of(dd);
        let dl = ddigits.len();
        let ghost lim = dl as nat;
        proof {
            lemma_num_digits_bounds(dv);
        }
        let ten = big_from_u64(10);
        let mut x = big_clone(nn);
        let mut m: usize = 0;
        while big_lt(&x, dd)
            invariant
                big_value(*nn) == nv,
                big_value(*dd) == dv,
                big_value(ten) == 10,
                nv >= 1,
                dv >= 1,
                nv < dv,
                big_value(x) == nv * pow10(m as nat),
                m > 0 ==> nv * pow10((m - 1) as nat) < dv,
                m <= dl,
                lim == dl as nat,
                dv < pow10(lim),
            decreases
                (if big_value(*dd) >= big_value(x) {
                    big_value(*dd) - big_value(x)
                } else {
                    0
                }),
        {
            proof {
                lemma_pow10_pos(m as nat);
                assert(pow10(m as nat) <= nv * pow10(m as nat)) by (nonlinear_arith)
                    requires nv >= 1, pow10(m as nat) >= 1,
                ;
                if m >= lim {
                    crate::bigint::lemma_pow10_increases(lim, m as nat);
                    assert(false);
                }
            }
            let ghost old_m = m as nat;
            x = big_mul(&x, &ten);
            m = m + 1;
            proof {
                assert(pow10((old_m + 1) as nat) == 10 * pow10(old_m));
                assert((nv * pow10(old_m)) * 10 == nv * (10 * pow10(old_m)))
                    by (nonlinear_arith);
            }
        }
        proof {
            if m == 0 {
                assert(big_value(x) == nv * pow10(0));
                assert(nv * 1 == nv) by (nonlinear_arith);
                assert(false);
            }
            lemma_exp10_below_unique(nv, dv, m as nat);
        }
        (true, m)
    }
}

/// Removes trailing decimal zeros from a positive integer.
fn strip_zeros_exec(t0: BigInt) -> (r: BigInt)
    requires
        big_value(t0) >= 1,
    ensures
        big_value(r) == strip_tz(big_value(t0) as nat),
{
    let ghost tv0 = big_value(t0) as nat;
    let ten = big_from_u64(10);
    let zero = big_from_u64(0);
    let mut t = t0;
    let mut qr = big_div_rem(&t, &ten);
    while big_eq(&qr.1, &zero)
        invariant
            big_value(ten) == 10,
            big_value(zero) == 0,
            big_value(t) >= 1,
            big_value(qr.0) == big_value(t) / 10,
            big_value(qr.1) == big_value(t) % 10,
            strip_tz(big_value(t) as nat) == strip_tz(tv0),
        decreases big_value(t),
    {
        proof {
            if big_value(t) < 10 {
                vstd::arithmetic::div_mod::lemma_small_mod(big_value(t) as nat, 10);
                assert(false);
            }
            vstd::arithmetic::div_mod::lemma_div_is_ordered(10, big_value(t), 10);
            vstd::arithmetic::div_mod::lemma_div_by_self(10);
            vstd::arithmetic::div_mod::lemma_div_decreases(big_value(t), 10);
        }
        t = qr.0;
        qr = big_div_rem(&t, &ten);
    }
    proof {
        if big_value(t) >= 10 {
            assert(strip_tz(big_value(t) as nat) == big_value(t));
        } else {
            vstd::arithmetic::div_mod::lemma_small_mod(big_value(t) as nat, 10);
        }
    }
    t
}

/// Lays the digit block out at magnitude `e2`, with the sign of `e2` split
/// into a flag and a magnitude.
fn render_sig(digits: &Vec<u64>, e2_neg: bool, e2_mag: usize) -> (r: String)
    requires
        digits@.len() >= 1,
        forall|i: int| 0 <= i < digits@.len() ==> digits@[i] < 10,
        e2_neg ==> e2_mag >= 1,
    ensures
        r@ == sig_body(chars_of_digits(digits@), if e2_neg {
            -(e2_mag as int)
        } else {
            e2_mag as int
        }),
{
    let ll = digits.len();
    let ghost e2: int = if e2_neg {
        -(e2_mag as int)
    } else {
        e2_mag as int
    };
    let ghost dchars = chars_of_digits(digits@);
    let mut s = String::new();
    if !e2_neg && e2_mag >= ll - 1 {
        push_digit_range(&mut s, digits, 0, ll);
        push_zeros(&mut s, e2_mag - (ll - 1));
        proof {
            assert(dchars.subrange(0, ll as int) =~= dchars);
            assert(s@ =~= dchars + zeros((e2 - (ll as int - 1)) as nat));
        }
    } else if !e2_neg {
        push_digit_range(&mut s, digits, 0, e2_mag + 1);
        s.append(".");
        proof {
            reveal_strlit(".");
        }
        push_digit_range(&mut s, digits, e2_mag + 1, ll);
        proof {
            assert(dchars.subrange(0, e2 + 1) =~= dchars.take(e2 + 1));
            assert(dchars.subrange(e2 + 1, ll as int) =~= dchars.skip(e2 + 1));
            assert(s@ =~= dchars.take(e2 + 1) + seq!['.'] + dchars.skip(e2 + 1));
        }
    } else {
        s.append("0.");
        proof {
            reveal_strlit("0.");
        }
        push_zeros(&mut s, e2_mag - 1);
        push_digit_range(&mut s, digits, 0, ll);
        proof {
            assert(dchars.subrange(0, ll as int) =~= dchars);
            assert(s@ =~= seq!['0', '.'] + zeros((-e2 - 1) as nat) + dchars);
        }
    }
    s
}

/// Renders `n / d` keeping exactly `k` significant digits counted from the
/// first non-zero digit, rounding at the digit boundary under the given
/// policy.  Trailing zeros appear only as needed to reach the value's
/// magnitude; magnitudes below one keep their leading zeros after the
/// point.
#[verifier::rlimit(100)]
pub(crate) fn format_significant(n: &BigInt, d: &BigInt, k: u8, rounding: Rounding) -> (r: String)
    requires
        big_value(*d) != 0,
        k >= 1,
    ensures
        r@ == sig_repr(big_value(*n), big_value(*d), k as nat, rounding),
{
    let zero = big_from_u64(0);
    let nn = big_abs(n);
    let dd = big_abs(d);
    let ghost nv = big_value(*n);
    let ghost dv = big_value(*d);
    let ghost nna = abs_int(nv);
    let ghost dda = abs_int(dv);
    if big_eq(&nn, &zero) {
        let mut s = String::new();
        push_digit(&mut s, 0);
        proof {
            assert(s@ =~= seq!['0']);
        }
        return s;
    }
    let neg = {
        let nneg = big_lt(n, &zero);
        let dneg = big_lt(d, &zero);
        nneg != dneg
    };
    let er = sig_exponent_exec(&nn, &dd);
    let e_neg = er.0;
    let e_mag = er.1;
    let ghost e = sig_exp(nna, dda);
    let ku = k as usize;
    proof {
        lemma_sig_t0_bounds(nna, dda, k as nat, rounding);
        lemma_pow10_pos((k - 1) as nat);
    }
    let ghost t0v = if e + 1 <= k as nat {
        rounded_div(nna * pow10((k - 1 - e) as nat), dda, rounding)
    } else {
        rounded_div(nna, dda * pow10((e + 1 - k) as nat), rounding)
    };
    let t0 = if e_neg || e_mag <= ku - 1 {
        let pw = if e_neg {
            let p1 = big_pow10(ku - 1);
            let p2 = big_pow10(e_mag);
            proof {
                crate::bigint::lemma_pow10_adds((ku - 1) as nat, e_mag as nat);
            }
            big_mul(&p1, &p2)
        } else {
            big_pow10(ku - 1 - e_mag)
        };
        let a = big_mul(&nn, &pw);
        proof {
            lemma_pow10_pos(((ku - 1) + e_mag) as nat);
            vstd::arithmetic::mul::lemma_mul_nonnegative(big_value(nn), big_value(pw));
            assert(big_value(a) == nna * pow10((k - 1 - e) as nat));
        }
        rounded_div_exec(&a, &dd, rounding)
    } else {
        let pw = big_pow10(e_mag - (ku - 1));
        let b2 = big_mul(&dd, &pw);
        proof {
            lemma_pow10_pos((e_mag - (ku - 1)) as nat);
            vstd::arithmetic::mul::lemma_mul_strictly_positive(big_value(dd), big_value(pw));
            assert(big_value(b2) == dda * pow10((e + 1 - k) as nat));
        }
        rounded_div_exec(&nn, &b2, rounding)
    };
    proof {
        assert(big_value(t0) == t0v);
        assert(pow10((k - 1) as nat) <= t0v <= pow10(k as nat));
    }
    let pk = big_pow10(ku);
    let carry = big_eq(&t0, &pk);
    let t = if carry {
        big_pow10(ku - 1)
    } else {
        t0
    };
    let e2_neg = if carry {
        if e_neg {
            e_mag > 1
        } else {
            false
        }
    } else {
        e_neg
    };
    let e2_mag = if carry {
        if e_neg {
            e_mag - 1
        } else {
            e_mag + 1
        }
    } else {
        e_mag
    };
    let ghost e2: int = if t0v == pow10(k as nat) {
        e + 1
    } else {
        e
    };
    proof {
        assert(e2 == if e2_neg { -(e2_mag as int) } else { e2_mag as int });
        assert(big_value(t) >= 1);
    }
    let ts = strip_zeros_exec(t);
    proof {
        lemma_strip_tz_pos(
            if t0v == pow10(k as nat) { pow10((k - 1) as nat) } else { t0v });
        lemma_num_digits_bounds(big_value(ts) as nat);
    }
    let digits = dec_string_of(&ts);
    let body = render_sig(&digits, e2_neg, e2_mag);
    if neg {
        let mut s = String::new();
        s.append("-");
        s.append(body.as_str());
        proof {
            reveal_strlit("-");
            assert(s@ =~= seq!['-'] + body@);
        }
        s
    } else {
        body
    }
}

} // verus!
