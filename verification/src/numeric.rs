//! IEEE-754 binary64 numbers, represented by their bit patterns.
//!
//! Everything that is decidable from the bits alone — NaN and zero tests,
//! equality, ordering, negation — is implemented and verified here directly.
//! Rounding arithmetic, decimal parsing and decimal formatting are delegated
//! to `rustc_apfloat`, a deterministic software implementation of IEEE-754,
//! behind trusted wrappers whose results are named by uninterpreted spec
//! functions.

use rustc_apfloat::Float;
use vstd::prelude::*;

verus! {

pub const SIGN_MASK: u64 = 0x8000_0000_0000_0000;

pub const EXP_MASK: u64 = 0x7ff0_0000_0000_0000;

pub const FRAC_MASK: u64 = 0x000f_ffff_ffff_ffff;

pub const MAG_MASK: u64 = 0x7fff_ffff_ffff_ffff;

/// The canonical quiet NaN.
pub const NAN_BITS: u64 = 0x7ff8_0000_0000_0000;

/// Positive infinity.
pub const INF_BITS: u64 = 0x7ff0_0000_0000_0000;

/// Negative infinity.
pub const NEG_INF_BITS: u64 = 0xfff0_0000_0000_0000;

/// The number one.
pub const ONE_BITS: u64 = 0x3ff0_0000_0000_0000;

/// The number zero.
pub const ZERO_BITS: u64 = 0;

/// A bit pattern is a NaN when its exponent field is all ones and its
/// fraction field is not zero.
pub open spec fn is_nan_bits(a: u64) -> bool {
    a & EXP_MASK == EXP_MASK && a & FRAC_MASK != 0
}

/// A bit pattern is a zero (of either sign) when all bits below the sign are
/// zero.
pub open spec fn is_zero_bits(a: u64) -> bool {
    a & MAG_MASK == 0
}

/// IEEE-754 equality on bit patterns: a NaN equals nothing, the two zeros
/// are equal, and any other value is equal to itself alone.
pub open spec fn num_eq_bits(a: u64, b: u64) -> bool {
    !is_nan_bits(a) && !is_nan_bits(b) && (a == b || (is_zero_bits(a) && is_zero_bits(b)))
}

/// IEEE-754 `<` on bit patterns: false if either side is a NaN, false between
/// the two zeros, and otherwise sign-magnitude order.
pub open spec fn num_lt_bits(a: u64, b: u64) -> bool {
    if is_nan_bits(a) || is_nan_bits(b) {
        false
    } else if is_zero_bits(a) && is_zero_bits(b) {
        false
    } else if a >> 63 != b >> 63 {
        a >> 63 == 1
    } else if a >> 63 == 0 {
        a < b
    } else {
        b < a
    }
}

pub open spec fn num_gt_bits(a: u64, b: u64) -> bool {
    num_lt_bits(b, a)
}

pub open spec fn num_le_bits(a: u64, b: u64) -> bool {
    num_eq_bits(a, b) || num_lt_bits(a, b)
}

pub open spec fn num_ge_bits(a: u64, b: u64) -> bool {
    num_eq_bits(a, b) || num_lt_bits(b, a)
}

/// IEEE-754 negation is exactly a flip of the sign bit.
pub open spec fn neg_bits(a: u64) -> u64 {
    a ^ SIGN_MASK
}

pub fn exec_is_nan_bits(a: u64) -> (r: bool)
    ensures
        r == is_nan_bits(a),
{
    a & EXP_MASK == EXP_MASK && a & FRAC_MASK != 0
}

pub fn exec_is_zero_bits(a: u64) -> (r: bool)
    ensures
        r == is_zero_bits(a),
{
    a & MAG_MASK == 0
}

pub fn exec_num_eq_bits(a: u64, b: u64) -> (r: bool)
    ensures
        r == num_eq_bits(a, b),
{
    !exec_is_nan_bits(a) && !exec_is_nan_bits(b) && (a == b || (exec_is_zero_bits(a)
        && exec_is_zero_bits(b)))
}

pub fn exec_num_lt_bits(a: u64, b: u64) -> (r: bool)
    ensures
        r == num_lt_bits(a, b),
{
    if exec_is_nan_bits(a) || exec_is_nan_bits(b) {
        false
    } else if exec_is_zero_bits(a) && exec_is_zero_bits(b) {
        false
    } else if a >> 63 != b >> 63 {
        a >> 63 == 1
    } else if a >> 63 == 0 {
        a < b
    } else {
        b < a
    }
}

pub fn exec_neg_bits(a: u64) -> (r: u64)
    ensures
        r == neg_bits(a),
{
    a ^ SIGN_MASK
}

/// The IEEE-754 sum of two bit patterns, rounded to nearest even.
pub uninterp spec fn add_bits(a: u64, b: u64) -> u64;

/// The IEEE-754 difference of two bit patterns, rounded to nearest even.
pub uninterp spec fn sub_bits(a: u64, b: u64) -> u64;

/// The IEEE-754 product of two bit patterns, rounded to nearest even.
pub uninterp spec fn mul_bits(a: u64, b: u64) -> u64;

/// The IEEE-754 quotient of two bit patterns, rounded to nearest even.
pub uninterp spec fn div_bits(a: u64, b: u64) -> u64;

/// The C `fmod` remainder of two bit patterns.
pub uninterp spec fn rem_bits(a: u64, b: u64) -> u64;

/// The bit pattern a string of digits parses to, or `None` where it is not a
/// number.
pub uninterp spec fn parse_num_bits(s: Seq<char>) -> Option<u64>;

/// The decimal rendering of a bit pattern.
pub uninterp spec fn num_string(a: u64) -> Seq<char>;

/// The bit pattern of the IEEE-754 value nearest to an unsigned integer.
pub uninterp spec fn from_usize_bits(n: usize) -> u64;

/// Relies on `rustc_apfloat::ieee::Double`'s `Add` (IEEE-754 binary64
/// addition, round to nearest even), a deterministic software implementation.
#[verifier::external_body]
pub(crate) fn num_add(a: u64, b: u64) -> (r: u64)
    ensures
        r == add_bits(a, b),
{
    let x = rustc_apfloat::ieee::Double::from_bits(a as u128) + rustc_apfloat::ieee::Double::from_bits(b as u128);
    x.value.to_bits() as u64
}

/// Relies on `rustc_apfloat::ieee::Double`'s `Sub` (IEEE-754 binary64
/// subtraction, round to nearest even).
#[verifier::external_body]
pub(crate) fn num_sub(a: u64, b: u64) -> (r: u64)
    ensures
        r == sub_bits(a, b),
{
    let x = rustc_apfloat::ieee::Double::from_bits(a as u128) - rustc_apfloat::ieee::Double::from_bits(b as u128);
    x.value.to_bits() as u64
}

/// Relies on `rustc_apfloat::ieee::Double`'s `Mul` (IEEE-754 binary64
/// multiplication, round to nearest even).
#[verifier::external_body]
pub(crate) fn num_mul(a: u64, b: u64) -> (r: u64)
    ensures
        r == mul_bits(a, b),
{
    let x = rustc_apfloat::ieee::Double::from_bits(a as u128) * rustc_apfloat::ieee::Double::from_bits(b as u128);
    x.value.to_bits() as u64
}

/// Relies on `rustc_apfloat::ieee::Double`'s `Div` (IEEE-754 binary64
/// division, round to nearest even).  Division by zero is never a fault:
/// zero over zero is the canonical quiet NaN, and any other non-NaN value
/// over zero is the infinity whose sign the operands' signs give.
#[verifier::external_body]
pub(crate) fn num_div(a: u64, b: u64) -> (r: u64)
    ensures
        r == div_bits(a, b),
        is_zero_bits(a) && is_zero_bits(b) ==> r == NAN_BITS,
        !is_nan_bits(a) && !is_zero_bits(a) && is_zero_bits(b) ==> r == (
        if a >> 63 == b >> 63 {
            INF_BITS
        } else {
            NEG_INF_BITS
        }),
{
    let x = rustc_apfloat::ieee::Double::from_bits(a as u128) / rustc_apfloat::ieee::Double::from_bits(b as u128);
    x.value.to_bits() as u64
}

/// Relies on `rustc_apfloat::ieee::Double`'s `Rem`, which is C `fmod` — the
/// remainder JavaScript's `%` computes.
#[verifier::external_body]
pub(crate) fn num_rem(a: u64, b: u64) -> (r: u64)
    ensures
        r == rem_bits(a, b),
{
    let x = rustc_apfloat::ieee::Double::from_bits(a as u128) % rustc_apfloat::ieee::Double::from_bits(b as u128);
    x.value.to_bits() as u64
}

/// Relies on `rustc_apfloat::ieee::Double::from_str` (via `core::str::FromStr`):
/// correctly rounded decimal-to-binary64 conversion, `Err` on text that is
/// not a number.
#[verifier::external_body]
pub(crate) fn parse_number(s: &str) -> (r: Option<u64>)
    ensures
        r == parse_num_bits(s@),
{
    match <rustc_apfloat::ieee::Double as core::str::FromStr>::from_str(s) {
        Ok(x) => Some(x.to_bits() as u64),
        Err(_) => None,
    }
}

/// Relies on `rustc_apfloat::ieee::Double`'s `Display`: a deterministic
/// round-trippable decimal rendering of the value, trailing zeros trimmed
/// (an integer-valued number renders as a plain integer).
#[verifier::external_body]
pub(crate) fn number_to_string(a: u64) -> (r: String)
    ensures
        r@ == num_string(a),
{
    format!("{}", rustc_apfloat::ieee::Double::from_bits(a as u128))
}

/// Relies on `rustc_apfloat::ieee::Double::from_u128`: conversion of an
/// unsigned integer to the nearest binary64 value.
#[verifier::external_body]
pub(crate) fn num_from_usize(n: usize) -> (r: u64)
    ensures
        r == from_usize_bits(n),
{
    rustc_apfloat::ieee::Double::from_u128(n as u128).value.to_bits() as u64
}

} // verus!
