use exprimo::{EvaluationError, Evaluator, Value};
use std::sync::Arc;

fn s(text: &str) -> String {
    text.to_string()
}

fn num(x: f64) -> Value {
    Value::Number(x.to_bits())
}

fn no_funcs() -> Vec<(String, Arc<dyn exprimo::CustomFunction>)> {
    Vec::new()
}

/// Converts a JSON document into the evaluator's value shape, so payload
/// contexts can be written as JSON text, as consumers build them.
fn json_to_value(v: &serde_json::Value) -> Value {
    match v {
        serde_json::Value::Null => Value::Null,
        serde_json::Value::Bool(b) => Value::Bool(*b),
        serde_json::Value::Number(n) => num(n.as_f64().unwrap()),
        serde_json::Value::String(text) => Value::String(text.clone()),
        serde_json::Value::Array(items) => Value::Array(items.iter().map(json_to_value).collect()),
        serde_json::Value::Object(map) => {
            Value::Object(map.iter().map(|(k, x)| (k.clone(), json_to_value(x))).collect())
        }
    }
}

fn parse_context(entries: Vec<(&str, &str)>) -> Vec<(String, Value)> {
    entries
        .into_iter()
        .map(|(k, json_text)| {
            let parsed = serde_json::from_str::<serde_json::Value>(json_text)
                .unwrap_or_else(|_| serde_json::Value::String(json_text.to_string()));
            (k.to_string(), json_to_value(&parsed))
        })
        .collect()
}

#[test]
fn test_json_payload_eval() {
    let context = parse_context(vec![("event", r#"{}"#)]);

    let evaluator = Evaluator::new(context, no_funcs());

    let expr1 = "event.payload === null";

    let res1 = evaluator.evaluate(expr1).unwrap();

    assert_eq!(res1, Value::Bool(true));
}

#[test]
fn test_json_payload_eval2() {
    let context = parse_context(vec![("send_email", r#"{"status": "success"}"#)]);

    let evaluator = Evaluator::new(context, no_funcs());

    let expr1 = "send_email.status === \"success\"";

    let res1 = evaluator.evaluate(expr1).unwrap();

    assert_eq!(res1, Value::Bool(true));
}

#[test]
fn test_json_payload_eval_with_serde_json_ctx() {
    let send_email = Value::Object(vec![
        (s("status"), Value::String(s("success"))),
        (s("payload"), Value::Null),
        (
            s("satcom"),
            Value::Object(vec![
                (s("id"), num(12345.0)),
                (s("name"), Value::String(s("Test Satellite"))),
            ]),
        ),
    ]);
    let context = vec![(s("event"), Value::Null), (s("send_email"), send_email)];

    let evaluator = Evaluator::new(context, no_funcs());

    // Accessing .payload on a null value is a type error.
    let expr1_eval = evaluator.evaluate("event.payload");
    match expr1_eval {
        Err(EvaluationError::TypeError(msg)) => {
            assert!(msg.contains(
                "Cannot read properties of null or primitive value: null (trying to access property: payload)"
            ));
        }
        _ => panic!(
            "Expected TypeError for event.payload when event is null, got {:?}",
            expr1_eval
        ),
    }

    let expr2 = "send_email.status === \"success\"";
    let res2 = evaluator.evaluate(expr2).unwrap();
    assert_eq!(res2, Value::Bool(true));
    let expr3 = "send_email.satcom.id === 12345.0";
    let res3 = evaluator.evaluate(expr3).unwrap();
    assert_eq!(res3, Value::Bool(true));
    let expr4 = "send_email.satcom.name === \"Test Satellite\"";
    let res4 = evaluator.evaluate(expr4).unwrap();
    assert_eq!(res4, Value::Bool(true));
    let expr5 = "send_email.payload === null";
    let res5 = evaluator.evaluate(expr5).unwrap();
    assert_eq!(res5, Value::Bool(true));
    let expr6 = "send_email.satcom === null";
    let res6 = evaluator.evaluate(expr6).unwrap();
    assert_eq!(res6, Value::Bool(false));

    // An integer literal and the same value written with a decimal point are
    // the same number.
    let expr7 = "send_email.satcom.id === 12345";
    let res7 = evaluator.evaluate(expr7).unwrap();
    assert_eq!(res7, Value::Bool(true));

    let expr8 = "send_email.satcom.id === 12345.1";
    let res8 = evaluator.evaluate(expr8).unwrap();
    assert_eq!(res8, Value::Bool(false));
}
