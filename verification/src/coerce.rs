//! Value coercion: ToNumber, ToBoolean and ToString, exactly as the
//! expression language defines them.

use crate::numeric::{
    is_nan_bits, is_zero_bits, num_string, number_to_string, parse_num_bits, parse_number,
    INF_BITS, NAN_BITS, NEG_INF_BITS, ONE_BITS, ZERO_BITS,
};
use crate::text::{chars_of, trim_of, trim_string};
use crate::value::{Value, Vm};
use vstd::prelude::*;

verus! {

/// A character a decimal number token may hold: a digit, a decimal point,
/// an exponent marker, or a sign.
pub open spec fn decimal_char(c: char) -> bool {
    (('0' as u32) <= (c as u32) && (c as u32) <= ('9' as u32)) || c == '.' || c == 'e' || c == 'E'
        || c == '+' || c == '-'
}

/// Whether every character of a token may appear in a decimal number.
pub open spec fn decimal_shaped(s: Seq<char>) -> bool {
    forall|i: int| 0 <= i < s.len() ==> decimal_char(s[i])
}

/// Case-insensitive equality against a keyword given in its lower-case and
/// upper-case spellings.
pub open spec fn ci_eq(s: Seq<char>, low: Seq<char>, up: Seq<char>) -> bool {
    s.len() == low.len() && s.len() == up.len() && (forall|i: int|
        0 <= i < s.len() ==> s[i] == low[i] || s[i] == up[i])
}

/// A token split at its optional leading sign: whether the sign is minus,
/// and the rest.
pub open spec fn sign_split(s: Seq<char>) -> (bool, Seq<char>) {
    if s.len() > 0 && s[0] == '-' {
        (true, s.drop_first())
    } else if s.len() > 0 && s[0] == '+' {
        (false, s.drop_first())
    } else {
        (false, s)
    }
}

/// The number-token grammar of the language: an optionally signed infinity
/// or NaN keyword in any letter case, or a decimal form handed to the
/// number parser; anything else is not a number.  The shape filter keeps
/// forms the language does not know (hexadecimal floats, NaN payloads) out
/// of the parser.
pub open spec fn js_parse_spec(s: Seq<char>) -> Option<u64> {
    let neg = sign_split(s).0;
    let body = sign_split(s).1;
    if ci_eq(body, "inf"@, "INF"@) || ci_eq(body, "infinity"@, "INFINITY"@) {
        Option::Some(
            if neg {
                NEG_INF_BITS
            } else {
                INF_BITS
            },
        )
    } else if ci_eq(body, "nan"@, "NAN"@) {
        Option::Some(NAN_BITS)
    } else if decimal_shaped(s) {
        parse_num_bits(s)
    } else {
        Option::None
    }
}

/// Case-insensitive comparison of `v` from `start` on against a keyword.
fn ci_eq_exec(v: &Vec<char>, start: usize, low: &str, up: &str) -> (r: bool)
    requires
        start <= v@.len(),
    ensures
        r == ci_eq(v@.subrange(start as int, v@.len() as int), low@, up@),
{
    let n = v.len() - start;
    let nl = low.unicode_len();
    let nu = up.unicode_len();
    if n != nl || n != nu {
        return false;
    }
    let mut i: usize = 0;
    while i < n
        invariant
            start + n == v@.len(),
            v@.len() <= usize::MAX,
            n == low@.len(),
            n == up@.len(),
            i <= n,
            forall|j: int| 0 <= j < i ==> v@[start + j] == low@[j] || v@[start + j] == up@[j],
        decreases n - i,
    {
        let c = v[start + i];
        let cl = low.get_char(i);
        let cu = up.get_char(i);
        if c != cl && c != cu {
            proof {
                assert(v@.subrange(start as int, v@.len() as int)[i as int] == v@[start + i]);
            }
            return false;
        }
        i = i + 1;
    }
    proof {
        assert forall|j: int| 0 <= j < n implies v@.subrange(start as int, v@.len() as int)[j]
            == v@[start + j] by {}
    }
    true
}

/// Parses a token as a number under the language's grammar.
pub fn js_parse_number(s: &str) -> (r: Option<u64>)
    ensures
        r == js_parse_spec(s@),
{
    let v = chars_of(s);
    let n = v.len();
    let (neg, start): (bool, usize) = if n > 0 && v[0] == '-' {
        (true, 1)
    } else if n > 0 && v[0] == '+' {
        (false, 1)
    } else {
        (false, 0)
    };
    proof {
        assert(sign_split(s@).0 == neg);
        assert(sign_split(s@).1 =~= v@.subrange(start as int, n as int));
    }
    if ci_eq_exec(&v, start, "inf", "INF") || ci_eq_exec(&v, start, "infinity", "INFINITY") {
        Option::Some(
            if neg {
                NEG_INF_BITS
            } else {
                INF_BITS
            },
        )
    } else if ci_eq_exec(&v, start, "nan", "NAN") {
        Option::Some(NAN_BITS)
    } else {
        let mut i: usize = 0;
        let mut shaped = true;
        while i < n
            invariant
                n == v@.len(),
                v@ == s@,
                i <= n,
                shaped == (forall|j: int| 0 <= j < i ==> decimal_char(s@[j])),
            decreases n - i,
        {
            let c = v[i];
            let cu = c as u32;
            let ok = (48u32 <= cu && cu <= 57u32) || c == '.' || c == 'e' || c == 'E' || c == '+'
                || c == '-';
            proof {
                assert(ok == decimal_char(s@[i as int]));
            }
            shaped = shaped && ok;
            i = i + 1;
        }
        if shaped {
            parse_number(s)
        } else {
            Option::None
        }
    }
}

/// ToNumber on a string: the empty string is zero, a trimmed `Infinity` or
/// `-Infinity` is the matching infinity, and anything else parses as a
/// number under the language's grammar or becomes NaN.
pub open spec fn str_to_number_spec(s: Seq<char>) -> u64 {
    if s.len() == 0 {
        ZERO_BITS
    } else if trim_of(s) == "Infinity"@ {
        INF_BITS
    } else if trim_of(s) == "-Infinity"@ {
        NEG_INF_BITS
    } else {
        match js_parse_spec(trim_of(s)) {
            Option::Some(b) => b,
            Option::None => NAN_BITS,
        }
    }
}

/// ToNumber: numbers pass through; `true` is one and `false` zero; null is
/// zero; strings parse as above; an empty array is zero, a one-element array
/// is the number of its element, a longer array is NaN; objects are NaN.
/// Coercion never fails: the worst case is NaN.
pub open spec fn to_number_spec(v: Vm) -> u64
    decreases v,
    via to_number_spec_decreases
{
    match v {
        Vm::Null => ZERO_BITS,
        Vm::Bool(b) => if b {
            ONE_BITS
        } else {
            ZERO_BITS
        },
        Vm::Num(b) => b,
        Vm::Str(s) => str_to_number_spec(s),
        Vm::Arr(elems) => if elems.len() == 0 {
            ZERO_BITS
        } else if elems.len() == 1 {
            to_number_spec(elems[0])
        } else {
            NAN_BITS
        },
        Vm::Obj(_) => NAN_BITS,
    }
}

#[via_fn]
proof fn to_number_spec_decreases(v: Vm) {
    broadcast use vstd::seq::axiom_seq_index_decreases;

    match v {
        Vm::Arr(elems) => {
            if elems.len() == 1 {
                assert(decreases_to!(v => elems));
                assert(decreases_to!(v => elems[0]));
            }
        },
        _ => {},
    }
}

/// ToBoolean: false exactly for `false`, null, a zero or NaN number, and the
/// empty string; everything else — arrays and objects included, even empty
/// ones — is truthy.
pub open spec fn to_boolean_spec(v: Vm) -> bool {
    match v {
        Vm::Null => false,
        Vm::Bool(b) => b,
        Vm::Num(n) => !is_zero_bits(n) && !is_nan_bits(n),
        Vm::Str(s) => s.len() != 0,
        Vm::Arr(_) => true,
        Vm::Obj(_) => true,
    }
}

/// ToString: strings pass through, numbers and booleans render canonically
/// (NaN and the infinities in the language's own spelling), null is `null`,
/// and arrays and objects render as fixed placeholders.
pub open spec fn to_string_spec(v: Vm) -> Seq<char> {
    match v {
        Vm::Null => "null"@,
        Vm::Bool(b) => if b {
            "true"@
        } else {
            "false"@
        },
        Vm::Num(b) => if is_nan_bits(b) {
            "NaN"@
        } else if b == INF_BITS {
            "Infinity"@
        } else if b == NEG_INF_BITS {
            "-Infinity"@
        } else {
            num_string(b)
        },
        Vm::Str(s) => s,
        Vm::Arr(_) => "[Array]"@,
        Vm::Obj(_) => "[Object]"@,
    }
}

/// ToNumber on a string slice.
pub fn str_to_number(s: &str) -> (r: u64)
    ensures
        r == str_to_number_spec(s@),
{
    if s.is_empty() {
        ZERO_BITS
    } else {
        let trimmed = trim_string(s);
        if trimmed == String::from_str("Infinity") {
            INF_BITS
        } else if trimmed == String::from_str("-Infinity") {
            NEG_INF_BITS
        } else {
            match js_parse_number(trimmed.as_str()) {
                Option::Some(b) => b,
                Option::None => NAN_BITS,
            }
        }
    }
}

/// ToNumber over a value.
pub fn to_number(v: &Value) -> (r: u64)
    ensures
        r == to_number_spec(v@),
    decreases v,
{
    broadcast use vstd::std_specs::vec::axiom_vec_index_decreases, vstd::std_specs::vec::group_vec_axioms;

    match v {
        Value::Null => ZERO_BITS,
        Value::Bool(b) => if *b {
            ONE_BITS
        } else {
            ZERO_BITS
        },
        Value::Number(b) => *b,
        Value::String(s) => str_to_number(s.as_str()),
        Value::Array(elems) => {
            if elems.len() == 0 {
                ZERO_BITS
            } else if elems.len() == 1 {
                proof {
                    crate::value::lemma_vms_of_len(elems@);
                    crate::value::lemma_vms_of_index(elems@, 0);
                }
                to_number(&elems[0])
            } else {
                proof {
                    crate::value::lemma_vms_of_len(elems@);
                }
                NAN_BITS
            }
        },
        Value::Object(_) => NAN_BITS,
    }
}

/// ToBoolean over a value.
pub fn to_boolean(v: &Value) -> (r: bool)
    ensures
        r == to_boolean_spec(v@),
{
    match v {
        Value::Null => false,
        Value::Bool(b) => *b,
        Value::Number(n) => !crate::numeric::exec_is_zero_bits(*n)
            && !crate::numeric::exec_is_nan_bits(*n),
        Value::String(s) => !s.as_str().is_empty(),
        Value::Array(_) => true,
        Value::Object(_) => true,
    }
}

/// The full ToBoolean truth table: `false`, null, zero and NaN numbers and
/// the empty string are falsy; every other value — empty arrays and empty
/// objects included — is truthy.
pub proof fn lemma_to_boolean_truth_table(
    b: bool,
    n: u64,
    s: Seq<char>,
    a: Seq<Vm>,
    o: Seq<(Seq<char>, Vm)>,
)
    ensures
        to_boolean_spec(Vm::Null) == false,
        to_boolean_spec(Vm::Bool(b)) == b,
        to_boolean_spec(Vm::Num(n)) == (!is_zero_bits(n) && !is_nan_bits(n)),
        to_boolean_spec(Vm::Str(s)) == (s.len() != 0),
        to_boolean_spec(Vm::Arr(a)) == true,
        to_boolean_spec(Vm::Obj(o)) == true,
{
}

/// ToString over a value.
pub fn value_to_string(v: &Value) -> (r: String)
    ensures
        r@ == to_string_spec(v@),
{
    match v {
        Value::Null => String::from_str("null"),
        Value::Bool(b) => if *b {
            String::from_str("true")
        } else {
            String::from_str("false")
        },
        Value::Number(b) => {
            if crate::numeric::exec_is_nan_bits(*b) {
                String::from_str("NaN")
            } else if *b == INF_BITS {
                String::from_str("Infinity")
            } else if *b == NEG_INF_BITS {
                String::from_str("-Infinity")
            } else {
                number_to_string(*b)
            }
        },
        Value::String(s) => s.clone(),
        Value::Array(_) => String::from_str("[Array]"),
        Value::Object(_) => String::from_str("[Object]"),
    }
}

} // verus!
