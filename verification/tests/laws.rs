//! Concrete instances of the library's general properties, plus edge cases
//! and one check per trusted numeric operation.

use exprimo::coerce::{to_boolean, value_to_string};
use exprimo::equality::{abstract_equality, same_value_zero, strict_equality};
use exprimo::{CustomFuncError, CustomFunction, EvaluationError, Evaluator, Value};
use std::sync::Arc;

fn s(text: &str) -> String {
    text.to_string()
}

fn num(x: f64) -> Value {
    Value::Number(x.to_bits())
}

fn no_funcs() -> Vec<(String, Arc<dyn CustomFunction>)> {
    Vec::new()
}

#[test]
fn to_boolean_truth_table() {
    assert_eq!(to_boolean(&Value::Null), false);
    assert_eq!(to_boolean(&Value::Bool(true)), true);
    assert_eq!(to_boolean(&Value::Bool(false)), false);
    assert_eq!(to_boolean(&num(0.0)), false);
    assert_eq!(to_boolean(&num(-0.0)), false);
    assert_eq!(to_boolean(&num(f64::NAN)), false);
    assert_eq!(to_boolean(&num(3.5)), true);
    assert_eq!(to_boolean(&Value::String(s(""))), false);
    assert_eq!(to_boolean(&Value::String(s("x"))), true);
    assert_eq!(to_boolean(&Value::Array(vec![])), true);
    assert_eq!(to_boolean(&Value::Object(vec![])), true);
}

#[test]
fn abstract_equality_symmetry_on_pairs() {
    let samples = vec![
        Value::Null,
        Value::Bool(true),
        Value::Bool(false),
        num(0.0),
        num(1.0),
        num(f64::NAN),
        Value::String(s("")),
        Value::String(s("1")),
        Value::String(s("true")),
        Value::Array(vec![num(1.0)]),
        Value::Object(vec![(s("a"), num(1.0))]),
    ];
    for a in &samples {
        for b in &samples {
            assert_eq!(abstract_equality(a, b), abstract_equality(b, a));
        }
    }
}

#[test]
fn nan_equality_relations() {
    let nan = num(f64::NAN);
    assert_eq!(strict_equality(&nan, &nan), false);
    assert_eq!(same_value_zero(&nan, &nan), true);
    // A NaN with another payload behaves the same way.
    let other_nan = Value::Number(0x7ff8_0000_0000_0001);
    assert_eq!(strict_equality(&nan, &other_nan), false);
    assert_eq!(same_value_zero(&nan, &other_nan), true);
}

#[test]
fn signed_zeros_are_equal() {
    assert_eq!(strict_equality(&num(0.0), &num(-0.0)), true);
    assert_eq!(same_value_zero(&num(0.0), &num(-0.0)), true);
    assert_eq!(abstract_equality(&num(0.0), &num(-0.0)), true);
}

#[test]
fn empty_array_includes_nothing() {
    let context = vec![(s("arr"), Value::Array(vec![]))];
    let evaluator = Evaluator::new(context, no_funcs());
    assert_eq!(evaluator.evaluate("arr.includes(1)").unwrap(), Value::Bool(false));
    assert_eq!(evaluator.evaluate("arr.includes('x')").unwrap(), Value::Bool(false));
    assert_eq!(evaluator.evaluate("arr.includes(null)").unwrap(), Value::Bool(false));
}

#[test]
fn singleton_array_includes_its_element() {
    let context = vec![
        (s("nums"), Value::Array(vec![num(7.5)])),
        (s("nans"), Value::Array(vec![num(f64::NAN)])),
        (s("strs"), Value::Array(vec![Value::String(s("x"))])),
    ];
    let evaluator = Evaluator::new(context, no_funcs());
    assert_eq!(evaluator.evaluate("nums.includes(7.5)").unwrap(), Value::Bool(true));
    assert_eq!(evaluator.evaluate("nans.includes(NaN)").unwrap(), Value::Bool(true));
    assert_eq!(evaluator.evaluate("strs.includes('x')").unwrap(), Value::Bool(true));
}

#[test]
fn has_own_property_before_and_after_insert() {
    let empty = Evaluator::new(vec![(s("obj"), Value::Object(vec![]))], no_funcs());
    assert_eq!(empty.evaluate("obj.hasOwnProperty('k')").unwrap(), Value::Bool(false));

    let with_key = Evaluator::new(
        vec![(s("obj"), Value::Object(vec![(s("k"), num(1.0))]))],
        no_funcs(),
    );
    assert_eq!(with_key.evaluate("obj.hasOwnProperty('k')").unwrap(), Value::Bool(true));
}

#[test]
fn empty_expression_is_an_error() {
    let evaluator = Evaluator::new(Vec::new(), no_funcs());
    let result = evaluator.evaluate("");
    match result {
        Err(EvaluationError::Node(_)) => {}
        _ => panic!("Expected a structural error for an empty expression, got {:?}", result),
    }
}

#[test]
fn unknown_identifier_is_an_error() {
    let evaluator = Evaluator::new(Vec::new(), no_funcs());
    let result = evaluator.evaluate("missing");
    match result {
        Err(EvaluationError::Node(e)) => {
            assert_eq!(e.message, "Identifier 'missing' not found in context.");
        }
        _ => panic!("Expected a structural error for an unknown identifier, got {:?}", result),
    }
}

#[test]
fn unknown_function_is_an_error() {
    let evaluator = Evaluator::new(Vec::new(), no_funcs());
    let result = evaluator.evaluate("no_such_fn(1)");
    match result {
        Err(EvaluationError::Node(e)) => {
            assert_eq!(e.message, "Function 'no_such_fn' not found.");
        }
        _ => panic!("Expected a structural error for an unknown function, got {:?}", result),
    }
}

#[test]
fn unsupported_operator_is_an_error() {
    let evaluator = Evaluator::new(Vec::new(), no_funcs());
    let result = evaluator.evaluate("2 ** 3");
    match result {
        Err(EvaluationError::Node(e)) => {
            assert_eq!(e.message, "Unsupported binary operator");
        }
        _ => panic!("Expected a structural error for an unsupported operator, got {:?}", result),
    }
}

#[test]
fn non_empty_array_literal_is_rejected() {
    let evaluator = Evaluator::new(Vec::new(), no_funcs());
    let result = evaluator.evaluate("[1, 2]");
    match result {
        Err(EvaluationError::Node(e)) => {
            assert_eq!(e.message, "Complex array literals are not yet supported.");
        }
        _ => panic!("Expected a structural error for a non-empty array literal, got {:?}", result),
    }
}

#[test]
fn method_reference_is_not_a_value() {
    let context = vec![(s("arr"), Value::Array(vec![]))];
    let evaluator = Evaluator::new(context, no_funcs());
    let result = evaluator.evaluate("arr.includes");
    match result {
        Err(EvaluationError::TypeError(_)) => {}
        _ => panic!("Expected a type error for a bound method used as a value, got {:?}", result),
    }
}

#[test]
fn plain_value_is_not_callable() {
    let context = vec![(s("obj"), Value::Object(vec![(s("f"), num(1.0))]))];
    let evaluator = Evaluator::new(context, no_funcs());
    let result = evaluator.evaluate("obj.f(1)");
    match result {
        Err(EvaluationError::TypeError(msg)) => {
            assert_eq!(msg, "'1' (resulting from expression 'obj.f') is not a function.");
        }
        _ => panic!("Expected a type error for calling a plain value, got {:?}", result),
    }
}

#[derive(Debug)]
struct AlwaysFails;

impl CustomFunction for AlwaysFails {
    fn call(&self, _args: &[Value]) -> Result<Value, CustomFuncError> {
        Err(CustomFuncError::Generic("it failed".to_string()))
    }
}

#[test]
fn custom_function_generic_error_passes_through() {
    let registry: Vec<(String, Arc<dyn CustomFunction>)> =
        vec![(s("boom"), Arc::new(AlwaysFails) as Arc<dyn CustomFunction>)];
    let evaluator = Evaluator::new(Vec::new(), registry);
    let result = evaluator.evaluate("boom()");
    match result {
        Err(EvaluationError::CustomFunction(CustomFuncError::Generic(msg))) => {
            assert_eq!(msg, "it failed");
        }
        _ => panic!("Expected the custom function's own error, got {:?}", result),
    }
}

// One check through the public surface per trusted numeric operation; each
// would fail if the operation handed an argument back unchanged.

#[test]
fn numeric_addition_is_exact() {
    let evaluator = Evaluator::new(Vec::new(), no_funcs());
    assert_eq!(evaluator.evaluate("1 + 2").unwrap(), num(3.0));
    assert_eq!(evaluator.evaluate("0.1 + 0.2").unwrap(), num(0.1f64 + 0.2f64));
}

#[test]
fn numeric_subtraction_is_exact() {
    let evaluator = Evaluator::new(Vec::new(), no_funcs());
    assert_eq!(evaluator.evaluate("10 - 4.5").unwrap(), num(5.5));
}

#[test]
fn numeric_multiplication_is_exact() {
    let evaluator = Evaluator::new(Vec::new(), no_funcs());
    assert_eq!(evaluator.evaluate("3 * 2.5").unwrap(), num(7.5));
}

#[test]
fn numeric_division_is_exact() {
    let evaluator = Evaluator::new(Vec::new(), no_funcs());
    assert_eq!(evaluator.evaluate("7 / 2").unwrap(), num(3.5));
}

#[test]
fn numeric_remainder_is_exact() {
    let evaluator = Evaluator::new(Vec::new(), no_funcs());
    assert_eq!(evaluator.evaluate("7 % 4").unwrap(), num(3.0));
    assert_eq!(evaluator.evaluate("-7 % 4").unwrap(), num(-3.0));
}

#[test]
fn numeric_parse_is_exact() {
    let evaluator = Evaluator::new(Vec::new(), no_funcs());
    assert_eq!(evaluator.evaluate("20.5").unwrap(), num(20.5));
    assert_eq!(evaluator.evaluate("1e3").unwrap(), num(1000.0));
}

#[test]
fn numeric_ordering_matches_float_order() {
    let evaluator = Evaluator::new(Vec::new(), no_funcs());
    assert_eq!(evaluator.evaluate("-1 < 0").unwrap(), Value::Bool(true));
    assert_eq!(evaluator.evaluate("-2 < -1").unwrap(), Value::Bool(true));
    assert_eq!(evaluator.evaluate("-1 < -2").unwrap(), Value::Bool(false));
    assert_eq!(evaluator.evaluate("0.5 < 2").unwrap(), Value::Bool(true));
    assert_eq!(evaluator.evaluate("2 <= 2").unwrap(), Value::Bool(true));
    assert_eq!(evaluator.evaluate("2 >= 3").unwrap(), Value::Bool(false));
    assert_eq!(evaluator.evaluate("-0.0 < 0").unwrap(), Value::Bool(false));
    assert_eq!(evaluator.evaluate("-0.0 >= 0").unwrap(), Value::Bool(true));
    assert_eq!(evaluator.evaluate("NaN < 1").unwrap(), Value::Bool(false));
    assert_eq!(evaluator.evaluate("NaN >= 1").unwrap(), Value::Bool(false));
    assert_eq!(evaluator.evaluate("Infinity > 1e308").unwrap(), Value::Bool(true));
    assert_eq!(evaluator.evaluate("-Infinity < -1e308").unwrap(), Value::Bool(true));
}

#[test]
fn string_trim_applies_in_to_number() {
    let context = vec![(s("padded"), Value::String(s("  42  ")))];
    let evaluator = Evaluator::new(context, no_funcs());
    assert_eq!(evaluator.evaluate("padded * 1").unwrap(), num(42.0));
}

#[test]
fn number_rendering_is_canonical() {
    assert_eq!(value_to_string(&num(123.0)), "123");
    assert_eq!(value_to_string(&num(0.5)), "0.5");
    assert_eq!(value_to_string(&Value::Null), "null");
    assert_eq!(value_to_string(&Value::Bool(true)), "true");
    assert_eq!(value_to_string(&Value::Array(vec![])), "[Array]");
    assert_eq!(value_to_string(&Value::Object(vec![])), "[Object]");
}

#[test]
fn array_length_counts_elements() {
    let context = vec![(s("arr"), Value::Array(vec![num(1.0), num(2.0), num(3.0), num(4.0)]))];
    let evaluator = Evaluator::new(context, no_funcs());
    assert_eq!(evaluator.evaluate("arr.length").unwrap(), num(4.0));
}

#[test]
fn unary_minus_negates_and_plus_coerces() {
    let context = vec![(s("numStr"), Value::String(s("8")))];
    let evaluator = Evaluator::new(context, no_funcs());
    assert_eq!(evaluator.evaluate("-numStr").unwrap(), num(-8.0));
    assert_eq!(evaluator.evaluate("+numStr").unwrap(), num(8.0));
}

#[test]
fn string_infinity_conversions() {
    let context = vec![
        (s("inf"), Value::String(s("Infinity"))),
        (s("ninf"), Value::String(s("-Infinity"))),
    ];
    let evaluator = Evaluator::new(context, no_funcs());
    assert_eq!(evaluator.evaluate("inf * 1").unwrap(), num(f64::INFINITY));
    assert_eq!(evaluator.evaluate("ninf * 1").unwrap(), num(f64::NEG_INFINITY));
}

#[test]
fn plus_concatenates_with_strings() {
    let context = vec![(s("who"), Value::String(s("world")))];
    let evaluator = Evaluator::new(context, no_funcs());
    assert_eq!(
        evaluator.evaluate("'hello ' + who").unwrap(),
        Value::String(s("hello world"))
    );
    assert_eq!(
        evaluator.evaluate("true + ''").unwrap(),
        Value::String(s("true"))
    );
    // With neither side a string or number pair, `+` concatenates the
    // ToString of both sides.
    assert_eq!(
        evaluator.evaluate("null + 1").unwrap(),
        Value::String(s("null1"))
    );
}

#[test]
fn non_finite_numbers_render_canonically() {
    assert_eq!(value_to_string(&num(f64::INFINITY)), "Infinity");
    assert_eq!(value_to_string(&num(f64::NEG_INFINITY)), "-Infinity");
    assert_eq!(value_to_string(&num(f64::NAN)), "NaN");
    let evaluator = Evaluator::new(Vec::new(), no_funcs());
    assert_eq!(
        evaluator.evaluate("Infinity + ''").unwrap(),
        Value::String(s("Infinity"))
    );
}

#[test]
fn number_grammar_follows_the_language() {
    let context = vec![
        (s("lowInf"), Value::String(s("infinity"))),
        (s("hex"), Value::String(s("0x1p3"))),
        (s("nanWord"), Value::String(s("NAN"))),
    ];
    let evaluator = Evaluator::new(context, no_funcs());
    // Case-insensitive infinity and NaN words convert as numbers ...
    assert_eq!(evaluator.evaluate("lowInf * 1").unwrap(), num(f64::INFINITY));
    assert_eq!(evaluator.evaluate("-lowInf").unwrap(), num(f64::NEG_INFINITY));
    let r = evaluator.evaluate("nanWord * 1").unwrap();
    match r {
        Value::Number(bits) => assert!(f64::from_bits(bits).is_nan()),
        other => panic!("Expected a number, got {:?}", other),
    }
    // ... while a hexadecimal float form is not a number.
    let r = evaluator.evaluate("hex * 1").unwrap();
    match r {
        Value::Number(bits) => assert!(f64::from_bits(bits).is_nan()),
        other => panic!("Expected a number, got {:?}", other),
    }
    // A hexadecimal literal is not a number token either.
    let r = evaluator.evaluate("0x10");
    match r {
        Err(EvaluationError::Node(e)) => {
            assert_eq!(e.message, "Unknown literal type: 0x10");
        }
        _ => panic!("Expected a structural error for a hex literal, got {:?}", r),
    }
}
