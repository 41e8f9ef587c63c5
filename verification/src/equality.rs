//! The three equality relations of the language: abstract (`==`), strict
//! (`===`), and SameValueZero (used by `Array.includes`).

use crate::coerce::{str_to_number_spec, to_number_spec};
use crate::numeric::{is_nan_bits, num_eq_bits, ONE_BITS, ZERO_BITS};
use crate::value::{Value, Vm};
use vstd::prelude::*;

verus! {

/// Strict equality: equal only with the same variant and the same value; a
/// NaN never strictly equals anything; no coercion across types; arrays and
/// objects are never equal to anything.
pub open spec fn strict_eq_spec(l: Vm, r: Vm) -> bool {
    match (l, r) {
        (Vm::Null, Vm::Null) => true,
        (Vm::Bool(a), Vm::Bool(b)) => a == b,
        (Vm::Str(a), Vm::Str(b)) => a == b,
        (Vm::Num(a), Vm::Num(b)) => num_eq_bits(a, b),
        _ => false,
    }
}

/// SameValueZero: strict equality, except that NaN equals NaN.
pub open spec fn same_value_zero_spec(l: Vm, r: Vm) -> bool {
    match (l, r) {
        (Vm::Null, Vm::Null) => true,
        (Vm::Bool(a), Vm::Bool(b)) => a == b,
        (Vm::Str(a), Vm::Str(b)) => a == b,
        (Vm::Num(a), Vm::Num(b)) => (is_nan_bits(a) && is_nan_bits(b)) || num_eq_bits(a, b),
        _ => false,
    }
}

/// Abstract equality: same-type comparisons are direct; a number and a
/// string compare by converting the string to a number; a boolean compares
/// to anything else by converting both sides to numbers; arrays and objects
/// are never equal to anything.
pub open spec fn abstract_eq_spec(l: Vm, r: Vm) -> bool {
    match (l, r) {
        (Vm::Null, Vm::Null) => true,
        (Vm::Bool(a), Vm::Bool(b)) => a == b,
        (Vm::Str(a), Vm::Str(b)) => a == b,
        (Vm::Num(a), Vm::Num(b)) => num_eq_bits(a, b),
        (Vm::Num(a), Vm::Str(s)) => num_eq_bits(a, str_to_number_spec(s)),
        (Vm::Str(s), Vm::Num(a)) => num_eq_bits(a, str_to_number_spec(s)),
        (Vm::Bool(a), other) => num_eq_bits(
            if a {
                ONE_BITS
            } else {
                ZERO_BITS
            },
            to_number_spec(other),
        ),
        (other, Vm::Bool(a)) => num_eq_bits(
            if a {
                ONE_BITS
            } else {
                ZERO_BITS
            },
            to_number_spec(other),
        ),
        _ => false,
    }
}

/// Strict equality over values.
pub fn strict_equality(l: &Value, r: &Value) -> (res: bool)
    ensures
        res == strict_eq_spec(l@, r@),
{
    match (l, r) {
        (Value::Null, Value::Null) => true,
        (Value::Bool(a), Value::Bool(b)) => *a == *b,
        (Value::String(a), Value::String(b)) => *a == *b,
        (Value::Number(a), Value::Number(b)) => crate::numeric::exec_num_eq_bits(*a, *b),
        _ => false,
    }
}

/// SameValueZero over values.
pub fn same_value_zero(l: &Value, r: &Value) -> (res: bool)
    ensures
        res == same_value_zero_spec(l@, r@),
{
    match (l, r) {
        (Value::Null, Value::Null) => true,
        (Value::Bool(a), Value::Bool(b)) => *a == *b,
        (Value::String(a), Value::String(b)) => *a == *b,
        (Value::Number(a), Value::Number(b)) => (crate::numeric::exec_is_nan_bits(*a)
            && crate::numeric::exec_is_nan_bits(*b)) || crate::numeric::exec_num_eq_bits(*a, *b),
        _ => false,
    }
}

/// Abstract equality over values.
pub fn abstract_equality(l: &Value, r: &Value) -> (res: bool)
    ensures
        res == abstract_eq_spec(l@, r@),
{
    match (l, r) {
        (Value::Null, Value::Null) => true,
        (Value::Bool(a), Value::Bool(b)) => *a == *b,
        (Value::String(a), Value::String(b)) => *a == *b,
        (Value::Number(a), Value::Number(b)) => crate::numeric::exec_num_eq_bits(*a, *b),
        (Value::Number(a), Value::String(s)) => crate::numeric::exec_num_eq_bits(
            *a,
            crate::coerce::str_to_number(s.as_str()),
        ),
        (Value::String(s), Value::Number(a)) => crate::numeric::exec_num_eq_bits(
            *a,
            crate::coerce::str_to_number(s.as_str()),
        ),
        (Value::Bool(a), other) => {
            let ab = if *a {
                ONE_BITS
            } else {
                ZERO_BITS
            };
            crate::numeric::exec_num_eq_bits(ab, crate::coerce::to_number(other))
        },
        (other, Value::Bool(a)) => {
            let ab = if *a {
                ONE_BITS
            } else {
                ZERO_BITS
            };
            crate::numeric::exec_num_eq_bits(ab, crate::coerce::to_number(other))
        },
        _ => false,
    }
}

/// Abstract equality is symmetric.
pub proof fn lemma_abstract_equality_symmetric(a: Vm, b: Vm)
    ensures
        abstract_eq_spec(a, b) == abstract_eq_spec(b, a),
{
}

/// A NaN never strictly equals a NaN, but SameValueZero holds between any
/// two NaNs.
pub proof fn lemma_nan_equality(a: u64, b: u64)
    requires
        is_nan_bits(a),
        is_nan_bits(b),
    ensures
        !strict_eq_spec(Vm::Num(a), Vm::Num(b)),
        same_value_zero_spec(Vm::Num(a), Vm::Num(b)),
{
}

} // verus!
