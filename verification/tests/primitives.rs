use exprimo::{Evaluator, Value};
use std::sync::Arc;

#[test]
fn test_primitives() {
    let context = Vec::new();
    let no_funcs: Vec<(String, Arc<dyn exprimo::CustomFunction>)> = Vec::new();

    let evaluator = Evaluator::new(context, no_funcs);

    let expr1 = "1/2";
    let res1 = evaluator.evaluate(expr1).unwrap();

    assert_eq!(res1, Value::Number((0.5f64).to_bits()));
}
