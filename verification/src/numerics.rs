//! IEEE binary64 numbers, carried as their 64-bit patterns.
//!
//! The language's numbers are double-precision floats.  The verified code
//! holds them as `u64` bit patterns and delegates the arithmetic to
//! `rustc_apfloat::ieee::Double`, a software implementation of IEEE 754
//! binary64 that rounds to nearest, ties to even — the same semantics as the
//! hardware type.  Each operation's result is a pure function of the operand
//! bits, so it is given a name below; the contracts of the interpreter speak
//! of those names.

use vstd::prelude::*;
use rustc_apfloat::Float;

verus! {

/// The bit pattern of the IEEE binary64 sum of two numbers given by bits.
pub uninterp spec fn add_bits(a: u64, b: u64) -> u64;

/// The bit pattern of the IEEE binary64 difference of two numbers.
pub uninterp spec fn sub_bits(a: u64, b: u64) -> u64;

/// The bit pattern of the IEEE binary64 product of two numbers.
pub uninterp spec fn mul_bits(a: u64, b: u64) -> u64;

/// The bit pattern of the IEEE binary64 quotient of two numbers.
pub uninterp spec fn div_bits(a: u64, b: u64) -> u64;

/// The bit pattern of the IEEE binary64 negation of a number.
pub uninterp spec fn neg_bits(a: u64) -> u64;

/// IEEE binary64 equality of two numbers given by bits (false when either
/// is a NaN; the two zeros are equal).
pub uninterp spec fn eq_bits(a: u64, b: u64) -> bool;

/// IEEE binary64 strict "less than" (false when either is a NaN).
pub uninterp spec fn lt_bits(a: u64, b: u64) -> bool;

/// IEEE binary64 "less than or equal" (false when either is a NaN).
pub uninterp spec fn le_bits(a: u64, b: u64) -> bool;

/// The bit pattern of the IEEE binary64 value nearest to the decimal
/// number written by the given characters (digits, optionally with one
/// point), ties to even.
pub uninterp spec fn parse_bits(s: Seq<char>) -> u64;

/// The bit pattern of the IEEE binary64 value nearest to the given integer.
pub uninterp spec fn bits_of_u64(n: u64) -> u64;

/// Relies on `rustc_apfloat::ieee::Double`'s `Add` (IEEE binary64 addition,
/// round to nearest, ties to even): the sum depends on the operand bits
/// alone.
#[verifier::external_body]
pub(crate) fn num_add(a: u64, b: u64) -> (r: u64)
    ensures
        r == add_bits(a, b),
{
    let x = rustc_apfloat::ieee::Double::from_bits(a as u128);
    let y = rustc_apfloat::ieee::Double::from_bits(b as u128);
    (x + y).value.to_bits() as u64
}

/// Relies on `rustc_apfloat::ieee::Double`'s `Sub` (IEEE binary64
/// subtraction, round to nearest, ties to even).
#[verifier::external_body]
pub(crate) fn num_sub(a: u64, b: u64) -> (r: u64)
    ensures
        r == sub_bits(a, b),
{
    let x = rustc_apfloat::ieee::Double::from_bits(a as u128);
    let y = rustc_apfloat::ieee::Double::from_bits(b as u128);
    (x - y).value.to_bits() as u64
}

/// Relies on `rustc_apfloat::ieee::Double`'s `Mul` (IEEE binary64
/// multiplication, round to nearest, ties to even).
#[verifier::external_body]
pub(crate) fn num_mul(a: u64, b: u64) -> (r: u64)
    ensures
        r == mul_bits(a, b),
{
    let x = rustc_apfloat::ieee::Double::from_bits(a as u128);
    let y = rustc_apfloat::ieee::Double::from_bits(b as u128);
    (x * y).value.to_bits() as u64
}

/// Relies on `rustc_apfloat::ieee::Double`'s `Div` (IEEE binary64 division,
/// round to nearest, ties to even; division by zero yields an infinity or a
/// NaN, never a fault).
#[verifier::external_body]
pub(crate) fn num_div(a: u64, b: u64) -> (r: u64)
    ensures
        r == div_bits(a, b),
{
    let x = rustc_apfloat::ieee::Double::from_bits(a as u128);
    let y = rustc_apfloat::ieee::Double::from_bits(b as u128);
    (x / y).value.to_bits() as u64
}

/// Relies on `rustc_apfloat::ieee::Double`'s `Neg` (flips the sign of the
/// value, NaNs included).
#[verifier::external_body]
pub(crate) fn num_neg(a: u64) -> (r: u64)
    ensures
        r == neg_bits(a),
{
    let x = rustc_apfloat::ieee::Double::from_bits(a as u128);
    (-x).to_bits() as u64
}

/// Relies on `rustc_apfloat::ieee::Double`'s `PartialEq` (IEEE equality:
/// false when either operand is a NaN; the two zeros compare equal).
#[verifier::external_body]
pub(crate) fn num_eq(a: u64, b: u64) -> (r: bool)
    ensures
        r == eq_bits(a, b),
{
    let x = rustc_apfloat::ieee::Double::from_bits(a as u128);
    let y = rustc_apfloat::ieee::Double::from_bits(b as u128);
    x == y
}

/// Relies on `rustc_apfloat::ieee::Double`'s `PartialOrd` (the IEEE partial
/// order: comparisons with a NaN are false).
#[verifier::external_body]
pub(crate) fn num_lt(a: u64, b: u64) -> (r: bool)
    ensures
        r == lt_bits(a, b),
{
    let x = rustc_apfloat::ieee::Double::from_bits(a as u128);
    let y = rustc_apfloat::ieee::Double::from_bits(b as u128);
    x < y
}

/// Relies on `rustc_apfloat::ieee::Double`'s `PartialOrd` (the IEEE partial
/// order: comparisons with a NaN are false).
#[verifier::external_body]
pub(crate) fn num_le(a: u64, b: u64) -> (r: bool)
    ensures
        r == le_bits(a, b),
{
    let x = rustc_apfloat::ieee::Double::from_bits(a as u128);
    let y = rustc_apfloat::ieee::Double::from_bits(b as u128);
    x <= y
}

/// Relies on `rustc_apfloat::ieee::Double`'s `FromStr` (correctly rounded
/// decimal-to-binary64 conversion, ties to even): the value depends on the
/// characters alone.  The scanner only hands over digit strings with at
/// most one point, which that parser accepts; any other text maps to zero.
#[verifier::external_body]
pub(crate) fn num_parse(s: &Vec<char>) -> (r: u64)
    ensures
        r == parse_bits(s@),
{
    let text: String = s.iter().collect();
    match text.parse::<rustc_apfloat::ieee::Double>() {
        Ok(d) => d.to_bits() as u64,
        Err(_) => 0,
    }
}

/// Relies on `rustc_apfloat::ieee::Double`'s `from_u128` (integer to
/// binary64 conversion, round to nearest, ties to even).
#[verifier::external_body]
pub(crate) fn num_from_u64(n: u64) -> (r: u64)
    ensures
        r == bits_of_u64(n),
{
    rustc_apfloat::ieee::Double::from_u128(n as u128).value.to_bits() as u64
}

/// Relies on `std::time::SystemTime`: the milliseconds between the Unix
/// epoch and now.  The value depends on the wall clock, so nothing is
/// promised of it; a clock before the epoch reads as zero.
#[verifier::external_body]
pub(crate) fn clock_millis() -> u64 {
    std::time::UNIX_EPOCH.elapsed().map(|d| d.as_millis() as u64).unwrap_or(0)
}

} // verus!
