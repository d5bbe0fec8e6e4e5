//! Exact rational-number arithmetic for token amounts and exchange rates.
//!
//! The crate is built around a rational core (an arbitrary-precision
//! numerator/denominator pair that is never reduced early and never touches
//! floating point), a metadata-attached fraction that carries an arbitrary
//! payload through every arithmetic result, and two specializations of it:
//! a currency amount (a quantity of one asset) and a price (an exchange
//! rate between two assets).  A small currency-identity value type gates
//! every cross-entity operation, and deterministic decimal-string rendering
//! is provided with significant-digit and fixed-point formatting under a
//! closed set of rounding policies.

use vstd::prelude::*;

pub mod bigint;
pub mod decimal;
pub mod fraction;
pub mod currency;
pub mod currency_amount;
pub mod price;
pub mod chains;
pub mod addresses;

verus! {

/// The failure cases of the library.  Every fallible constructor and
/// operation reports one of these explicitly; nothing is silently coerced.
#[derive(Clone, Copy, Debug, PartialEq, Eq, Structural)]
pub enum Error {
    /// A denominator of zero was supplied or would be produced.
    DivisionByZero,
    /// An arithmetic or quoting operation was attempted across two values
    /// whose relevant currencies are not equal.
    MismatchedCurrency,
    /// Out-of-range construction parameters (`decimals >= 255` or
    /// `chain_id == 0`).
    InvalidConstruction,
    /// An ordering comparison was requested across incompatible chains, or
    /// between two tokens with the same address.
    InvalidComparison,
}

/// The rule applied when a rational value must be truncated to a finite
/// decimal representation.  Selected per formatting call, never globally.
#[derive(Clone, Copy, Debug, PartialEq, Eq, Structural)]
pub enum Rounding {
    /// Truncate toward zero.
    RoundDown,
    /// Round half away from zero.
    RoundHalfUp,
    /// Round away from zero.
    RoundUp,
}

} // verus!
