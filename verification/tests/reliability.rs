use exprimo::{Evaluator, Value};
use std::sync::Arc;

fn s(text: &str) -> String {
    text.to_string()
}

fn num(x: f64) -> Value {
    Value::Number(x.to_bits())
}

fn no_funcs() -> Vec<(String, Arc<dyn exprimo::CustomFunction>)> {
    Vec::new()
}

#[test]
fn test_division_by_zero_returns_infinity() {
    let context = Vec::new();

    let evaluator = Evaluator::new(context, no_funcs());

    let result = evaluator.evaluate("5 / 0");
    assert!(result.is_ok(), "Division by zero should not error");
    assert_eq!(result.unwrap(), num(f64::INFINITY));

    let result = evaluator.evaluate("-5 / 0");
    assert!(result.is_ok(), "Division by zero (negative) should not error");
    assert_eq!(result.unwrap(), num(f64::NEG_INFINITY));

    let result = evaluator.evaluate("0 / 0");
    assert!(result.is_ok(), "0/0 should not error (results in NaN)");
    match result.unwrap() {
        Value::Number(bits) => assert!(f64::from_bits(bits).is_nan()),
        other => panic!("Expected a number, got {:?}", other),
    }
}

#[test]
fn test_nan_from_invalid_string_conversion() {
    let context = vec![(s("str"), Value::String(s("not a number")))];

    let evaluator = Evaluator::new(context, no_funcs());

    let result = evaluator.evaluate("str * 2");
    assert!(result.is_ok(), "Invalid string conversion should not error");

    let result = evaluator.evaluate("str * 2 ? true : false").unwrap();
    assert_eq!(result, Value::Bool(false), "NaN should be falsy");
}

#[test]
fn test_nan_comparison() {
    let context = Vec::new();

    let evaluator = Evaluator::new(context, no_funcs());

    // NaN never equals itself, even through the NaN identifier.
    let result = evaluator.evaluate("NaN == NaN");
    assert_eq!(result.unwrap(), Value::Bool(false));

    // NaN from an actual operation behaves the same way.
    let result = evaluator.evaluate("('abc' * 1) == ('abc' * 1)");
    assert_eq!(result.unwrap(), Value::Bool(false));
}

#[test]
fn test_infinity_support() {
    let context = Vec::new();

    let evaluator = Evaluator::new(context, no_funcs());

    let result = evaluator.evaluate("Infinity");
    assert!(result.is_ok(), "Infinity identifier should work");
    assert_eq!(result.unwrap(), num(f64::INFINITY));

    let result = evaluator.evaluate("Infinity ? true : false").unwrap();
    assert_eq!(result, Value::Bool(true), "Infinity should be truthy");

    let result = evaluator.evaluate("Infinity > 1000000");
    assert!(result.is_ok(), "Infinity comparison should work");
    assert_eq!(result.unwrap(), Value::Bool(true));
}

#[test]
fn test_empty_array_truthiness() {
    let context = vec![(s("emptyArr"), Value::Array(vec![]))];

    let evaluator = Evaluator::new(context, no_funcs());

    let result = evaluator.evaluate("emptyArr ? true : false").unwrap();
    assert_eq!(result, Value::Bool(true), "Empty array should be truthy");

    let result = evaluator.evaluate("[] ? true : false").unwrap();
    assert_eq!(result, Value::Bool(true), "Empty array literal should be truthy");
}

#[test]
fn test_empty_object_truthiness() {
    let context = vec![(s("emptyObj"), Value::Object(vec![]))];

    let evaluator = Evaluator::new(context, no_funcs());

    let result = evaluator.evaluate("emptyObj ? true : false").unwrap();
    assert_eq!(result, Value::Bool(true), "Empty object should be truthy");
}

#[test]
fn test_abstract_equality_type_coercion() {
    let context = Vec::new();

    let evaluator = Evaluator::new(context, no_funcs());

    let result = evaluator.evaluate("'5' == 5").unwrap();
    assert_eq!(result, Value::Bool(true), "'5' == 5 should be true");

    let result = evaluator.evaluate("5 == '5'").unwrap();
    assert_eq!(result, Value::Bool(true), "5 == '5' should be true");

    let result = evaluator.evaluate("true == 1").unwrap();
    assert_eq!(result, Value::Bool(true), "true == 1 should be true");

    let result = evaluator.evaluate("false == 0").unwrap();
    assert_eq!(result, Value::Bool(true), "false == 0 should be true");

    let result = evaluator.evaluate("1 == true").unwrap();
    assert_eq!(result, Value::Bool(true), "1 == true should be true");
}

#[test]
fn test_strict_equality_no_coercion() {
    let context = Vec::new();

    let evaluator = Evaluator::new(context, no_funcs());

    let result = evaluator.evaluate("'5' === 5").unwrap();
    assert_eq!(result, Value::Bool(false), "'5' === 5 should be false");

    let result = evaluator.evaluate("5 === '5'").unwrap();
    assert_eq!(result, Value::Bool(false), "5 === '5' should be false");

    let result = evaluator.evaluate("true === 1").unwrap();
    assert_eq!(result, Value::Bool(false), "true === 1 should be false");

    let result = evaluator.evaluate("false === 0").unwrap();
    assert_eq!(result, Value::Bool(false), "false === 0 should be false");

    let result = evaluator.evaluate("5 === 5").unwrap();
    assert_eq!(result, Value::Bool(true), "5 === 5 should be true");

    let result = evaluator.evaluate("'hello' === 'hello'").unwrap();
    assert_eq!(result, Value::Bool(true), "'hello' === 'hello' should be true");
}

#[test]
fn test_string_escape_sequences() {
    let context = Vec::new();

    let evaluator = Evaluator::new(context, no_funcs());

    let result = evaluator.evaluate("'line1\\nline2'").unwrap();
    if let Value::String(text) = result {
        assert!(text.contains('\n'), "Should contain actual newline character");
        assert_eq!(text, "line1\nline2");
    } else {
        panic!("Expected string value");
    }

    let result = evaluator.evaluate("'col1\\tcol2'").unwrap();
    if let Value::String(text) = result {
        assert!(text.contains('\t'), "Should contain actual tab character");
        assert_eq!(text, "col1\tcol2");
    } else {
        panic!("Expected string value");
    }

    let result = evaluator.evaluate("'quote: \\'hello\\''").unwrap();
    if let Value::String(text) = result {
        assert_eq!(text, "quote: 'hello'");
    } else {
        panic!("Expected string value");
    }

    let result = evaluator.evaluate("\"quote: \\\"hello\\\"\"").unwrap();
    if let Value::String(text) = result {
        assert_eq!(text, "quote: \"hello\"");
    } else {
        panic!("Expected string value");
    }

    let result = evaluator.evaluate("'path\\\\to\\\\file'").unwrap();
    if let Value::String(text) = result {
        assert_eq!(text, "path\\to\\file");
    } else {
        panic!("Expected string value");
    }
}

#[test]
fn test_string_to_number_conversion() {
    let context = vec![
        (s("numStr"), Value::String(s("42"))),
        (s("emptyStr"), Value::String(s(""))),
        (s("infStr"), Value::String(s("Infinity"))),
    ];

    let evaluator = Evaluator::new(context, no_funcs());

    let result = evaluator.evaluate("numStr * 2").unwrap();
    if let Value::Number(bits) = result {
        assert_eq!(f64::from_bits(bits), 84.0, "Valid number string should convert");
    } else {
        panic!("Expected number value");
    }

    let result = evaluator.evaluate("emptyStr + 5").unwrap();
    if let Value::String(text) = result {
        assert!(
            text == "5" || text == "5.0",
            "Empty string should concatenate with number: got {}",
            text
        );
    } else {
        panic!("Expected string concatenation");
    }

    let result = evaluator.evaluate("infStr > 1000");
    assert!(result.is_ok(), "Infinity string should be parseable");
    assert_eq!(result.unwrap(), Value::Bool(true));
}

#[test]
fn test_array_to_number_conversion() {
    let context = vec![
        (s("emptyArr"), Value::Array(vec![])),
        (s("singleNumArr"), Value::Array(vec![num(42.0)])),
        (s("multiArr"), Value::Array(vec![num(1.0), num(2.0)])),
    ];

    let evaluator = Evaluator::new(context, no_funcs());

    let result = evaluator.evaluate("emptyArr * 5").unwrap();
    if let Value::Number(bits) = result {
        assert_eq!(f64::from_bits(bits), 0.0, "Empty array should convert to 0");
    } else {
        panic!("Expected number value");
    }

    let result = evaluator.evaluate("singleNumArr * 2").unwrap();
    if let Value::Number(bits) = result {
        assert_eq!(f64::from_bits(bits), 84.0, "Single element array should convert to its element");
    } else {
        panic!("Expected number value");
    }

    let result = evaluator.evaluate("multiArr * 2");
    assert!(result.is_ok(), "Multi-element array multiplication should not error");
    match result.unwrap() {
        Value::Number(bits) => assert!(f64::from_bits(bits).is_nan()),
        other => panic!("Expected a number, got {:?}", other),
    }
}

#[test]
fn test_undefined_identifier() {
    let context = Vec::new();

    let evaluator = Evaluator::new(context, no_funcs());

    let result = evaluator.evaluate("undefined");
    assert!(result.is_ok(), "undefined identifier should work");
    assert_eq!(result.unwrap(), Value::Null, "undefined should be null");

    let result = evaluator.evaluate("undefined ? true : false").unwrap();
    assert_eq!(result, Value::Bool(false), "undefined should be falsy");
}

#[test]
fn test_complex_rule_engine_expressions() {
    let context = vec![
        (s("user_age"), num(25.0)),
        (s("user_status"), Value::String(s("active"))),
        (s("user_score"), num(85.0)),
        (s("user_premium"), Value::Bool(true)),
    ];

    let evaluator = Evaluator::new(context, no_funcs());

    let result = evaluator
        .evaluate("user_age >= 18 && user_status === 'active'")
        .unwrap();
    assert_eq!(result, Value::Bool(true));

    let result = evaluator
        .evaluate("user_score >= 80 ? 'pass' : 'fail'")
        .unwrap();
    assert_eq!(result, Value::String(s("pass")));

    let result = evaluator.evaluate("user_premium == 1").unwrap();
    assert_eq!(result, Value::Bool(true), "Boolean true should equal number 1 with ==");

    let result = evaluator.evaluate("user_premium === 1").unwrap();
    assert_eq!(result, Value::Bool(false), "Boolean true should not strictly equal number 1");

    let result = evaluator
        .evaluate("(user_age > 20 && user_score >= 80) || user_premium")
        .unwrap();
    assert_eq!(result, Value::Bool(true));
}

#[test]
fn test_logical_operators_with_new_truthiness() {
    let context = vec![
        (s("emptyArr"), Value::Array(vec![])),
        (s("emptyObj"), Value::Object(vec![])),
    ];

    let evaluator = Evaluator::new(context, no_funcs());

    let result = evaluator.evaluate("emptyArr && true").unwrap();
    assert_eq!(
        result,
        Value::Bool(true),
        "Empty array is truthy, so AND should evaluate second operand"
    );

    let result = evaluator.evaluate("emptyObj || false").unwrap();
    assert_eq!(result, Value::Bool(true), "Empty object is truthy");

    let result = evaluator.evaluate("!emptyArr").unwrap();
    assert_eq!(result, Value::Bool(false), "Negation of truthy empty array should be false");
}
