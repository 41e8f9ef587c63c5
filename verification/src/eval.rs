//! The evaluator: an immutable context and function registry, and the
//! recursive tree walk whose every run is pinned by the model in
//! `semantics`.

use crate::ast::Ast;
use crate::coerce::{to_boolean, to_number, value_to_string};
use crate::equality::{abstract_equality, same_value_zero, strict_equality};
use crate::errors::{
    BuiltInMethodKind, CustomFuncError, CustomFunction, ErrVm, EvaluationError, NodeError,
    ResolvableValue, ResolvableVm,
};
use crate::lower::{first_child_of, lowers_to, parse_fuel, root_of};
use crate::numeric::{
    exec_num_eq_bits, exec_num_lt_bits, exec_neg_bits, num_add, num_div, num_from_usize, num_mul,
    num_rem, num_sub,
};
use crate::semantics::{
    apply_bin_spec, apply_method_spec, apply_unary_spec, eval_args_spec, eval_ast, eval_dot_spec,
    find_fn_from, find_fn_spec, has_key_spec, includes_spec, literal_spec, lookup_spec, name_spec,
};
use crate::text::{chars_of, string_from_chars, unescape_chars};
use crate::value::{
    lemma_pair_vms_of_index, lemma_pair_vms_of_len, lemma_vms_of_index, lemma_vms_of_len,
    pair_vms_of, value_clone, vms_of, Value, Vm,
};
use std::sync::Arc;
use vstd::prelude::*;

verus! {

/// The model of a registry: its entries, each name beside its callable, in
/// order.
pub open spec fn regs_of(s: Seq<(String, Arc<dyn CustomFunction>)>) -> Seq<
    (Seq<char>, Arc<dyn CustomFunction>),
> {
    Seq::new(s.len(), |i: int| (s[i].0@, s[i].1))
}

/// Whether an evaluation result is the one the model calls for: the model's
/// value pins a success, the model's error pins a failure.
pub open spec fn outcome_matches(o: Result<Vm, ErrVm>, r: Result<Value, EvaluationError>) -> bool {
    match o {
        Result::Ok(v) => match r {
            Result::Ok(out) => out@ == v,
            Result::Err(_) => false,
        },
        Result::Err(e) => match r {
            Result::Ok(_) => false,
            Result::Err(err) => err@ == e,
        },
    }
}

/// The same, for resolving a dot expression.
pub open spec fn resolve_matches(
    o: Result<ResolvableVm, ErrVm>,
    r: Result<ResolvableValue, EvaluationError>,
) -> bool {
    match o {
        Result::Ok(rv) => match r {
            Result::Ok(out) => out@ == rv,
            Result::Err(_) => false,
        },
        Result::Err(e) => match r {
            Result::Ok(_) => false,
            Result::Err(err) => err@ == e,
        },
    }
}

fn node_error(message: String) -> (r: EvaluationError)
    ensures
        r@ == crate::errors::ErrVm::Node(message@),
{
    EvaluationError::Node(NodeError { message })
}

fn node_error_lit(message: &str) -> (r: EvaluationError)
    ensures
        r@ == crate::errors::ErrVm::Node(message@),
{
    EvaluationError::Node(NodeError { message: message.to_owned() })
}

/// The first value under `key`, deep-copied, or `None` where the key is
/// absent.
fn lookup_value(pairs: &Vec<(String, Value)>, key: &String) -> (r: Option<Value>)
    ensures
        match lookup_spec(pair_vms_of(pairs@), key@) {
            Option::Some(v) => match r {
                Option::Some(out) => out@ == v,
                Option::None => false,
            },
            Option::None => r is None,
        },
{
    let ghost full = pair_vms_of(pairs@);
    let n = pairs.len();
    proof {
        lemma_pair_vms_of_len(pairs@);
        assert(full.subrange(0, n as int) =~= full);
    }
    let mut i: usize = 0;
    while i < n
        invariant
            n == pairs.len(),
            i <= n,
            full == pair_vms_of(pairs@),
            full.len() == n,
            lookup_spec(full, key@) == lookup_spec(full.subrange(i as int, n as int), key@),
        decreases n - i,
    {
        let ghost rest = full.subrange(i as int, n as int);
        proof {
            lemma_pair_vms_of_index(pairs@, i as int);
            assert(rest[0] == full[i as int]);
            assert(rest.drop_first() =~= full.subrange(i + 1 as int, n as int));
        }
        if pairs[i].0 == *key {
            return Option::Some(value_clone(&pairs[i].1));
        }
        i = i + 1;
    }
    proof {
        assert(full.subrange(n as int, n as int) =~= Seq::<(Seq<char>, Vm)>::empty());
    }
    Option::None
}

/// Whether the object's key set holds `key`.
fn object_has_key(pairs: &Vec<(String, Value)>, key: &String) -> (r: bool)
    ensures
        r == has_key_spec(pair_vms_of(pairs@), key@),
{
    let n = pairs.len();
    proof {
        lemma_pair_vms_of_len(pairs@);
    }
    let mut i: usize = 0;
    while i < n
        invariant
            n == pairs.len(),
            pair_vms_of(pairs@).len() == n,
            i <= n,
            forall|j: int| 0 <= j < i ==> pair_vms_of(pairs@)[j].0 != key@,
        decreases n - i,
    {
        proof {
            lemma_pair_vms_of_index(pairs@, i as int);
        }
        if pairs[i].0 == *key {
            proof {
                assert(pair_vms_of(pairs@)[i as int].0 == key@);
            }
            return true;
        }
        i = i + 1;
    }
    false
}

/// Whether the array contains `x` under SameValueZero.
fn array_includes(elems: &Vec<Value>, x: &Value) -> (r: bool)
    ensures
        r == includes_spec(vms_of(elems@), x@),
{
    let n = elems.len();
    proof {
        lemma_vms_of_len(elems@);
    }
    let mut i: usize = 0;
    while i < n
        invariant
            n == elems.len(),
            vms_of(elems@).len() == n,
            i <= n,
            forall|j: int| 0 <= j < i ==> !crate::equality::same_value_zero_spec(
                vms_of(elems@)[j],
                x@,
            ),
        decreases n - i,
    {
        proof {
            lemma_vms_of_index(elems@, i as int);
        }
        if same_value_zero(&elems[i], x) {
            return true;
        }
        i = i + 1;
    }
    false
}

/// Maps what a custom function returned into the evaluator's error type,
/// value and error both unchanged.
pub fn custom_result_to_evaluation(r: Result<Value, CustomFuncError>) -> (out: Result<
    Value,
    EvaluationError,
>)
    ensures
        match r {
            Result::Ok(v) => out == Result::<Value, EvaluationError>::Ok(v),
            Result::Err(e) => out == Result::<Value, EvaluationError>::Err(
                EvaluationError::CustomFunction(e),
            ),
        },
{
    match r {
        Result::Ok(v) => Result::Ok(v),
        Result::Err(e) => Result::Err(EvaluationError::CustomFunction(e)),
    }
}

/// `+` on two evaluated operands.
fn add_values(l: &Value, r: &Value) -> (res: Value)
    ensures
        res@ == crate::semantics::add_spec(l@, r@),
{
    match (l, r) {
        (Value::Number(a), Value::Number(b)) => Value::Number(num_add(*a, *b)),
        (Value::String(a), Value::String(b)) => Value::String(a.clone().concat(b.as_str())),
        (Value::String(a), other) => {
            let s = value_to_string(other);
            Value::String(a.clone().concat(s.as_str()))
        },
        (other, Value::String(b)) => {
            let s = value_to_string(other);
            Value::String(s.concat(b.as_str()))
        },
        _ => {
            let a = value_to_string(l);
            let b = value_to_string(r);
            Value::String(a.concat(b.as_str()))
        },
    }
}

/// `-` on two evaluated operands: ToNumber both, then subtract.
fn subtract_values(l: &Value, r: &Value) -> (res: Value)
    ensures
        res@ == Vm::Num(
            crate::numeric::sub_bits(
                crate::coerce::to_number_spec(l@),
                crate::coerce::to_number_spec(r@),
            ),
        ),
{
    Value::Number(num_sub(to_number(l), to_number(r)))
}

/// `*` on two evaluated operands.
fn multiply_values(l: &Value, r: &Value) -> (res: Value)
    ensures
        res@ == Vm::Num(
            crate::numeric::mul_bits(
                crate::coerce::to_number_spec(l@),
                crate::coerce::to_number_spec(r@),
            ),
        ),
{
    Value::Number(num_mul(to_number(l), to_number(r)))
}

/// `/` on two evaluated operands; division by zero follows IEEE-754 and
/// yields an infinity or NaN, never an error: zero over zero is NaN, and
/// any other non-NaN value over zero is the signed infinity.
fn divide_values(l: &Value, r: &Value) -> (res: Value)
    ensures
        res@ == Vm::Num(
            crate::numeric::div_bits(
                crate::coerce::to_number_spec(l@),
                crate::coerce::to_number_spec(r@),
            ),
        ),
        ({
            let a = crate::coerce::to_number_spec(l@);
            let b = crate::coerce::to_number_spec(r@);
            &&& (crate::numeric::is_zero_bits(a) && crate::numeric::is_zero_bits(b) ==> res@
                == Vm::Num(crate::numeric::NAN_BITS))
            &&& (!crate::numeric::is_nan_bits(a) && !crate::numeric::is_zero_bits(a)
                && crate::numeric::is_zero_bits(b) ==> res@ == Vm::Num(
                if a >> 63 == b >> 63 {
                    crate::numeric::INF_BITS
                } else {
                    crate::numeric::NEG_INF_BITS
                },
            ))
        }),
{
    Value::Number(num_div(to_number(l), to_number(r)))
}

/// `%` on two evaluated operands.
fn modulo_values(l: &Value, r: &Value) -> (res: Value)
    ensures
        res@ == Vm::Num(
            crate::numeric::rem_bits(
                crate::coerce::to_number_spec(l@),
                crate::coerce::to_number_spec(r@),
            ),
        ),
{
    Value::Number(num_rem(to_number(l), to_number(r)))
}

/// A relational comparison on two evaluated operands: ToNumber both, then
/// the IEEE-754 order (a NaN makes every comparison false).
fn compare_values(l: &Value, r: &Value, op: CompareOp) -> (res: Value)
    ensures
        res@ == Vm::Bool(
            match op {
                CompareOp::Greater => crate::numeric::num_gt_bits(
                    crate::coerce::to_number_spec(l@),
                    crate::coerce::to_number_spec(r@),
                ),
                CompareOp::Less => crate::numeric::num_lt_bits(
                    crate::coerce::to_number_spec(l@),
                    crate::coerce::to_number_spec(r@),
                ),
                CompareOp::GreaterEq => crate::numeric::num_ge_bits(
                    crate::coerce::to_number_spec(l@),
                    crate::coerce::to_number_spec(r@),
                ),
                CompareOp::LessEq => crate::numeric::num_le_bits(
                    crate::coerce::to_number_spec(l@),
                    crate::coerce::to_number_spec(r@),
                ),
            },
        ),
{
    let a = to_number(l);
    let b = to_number(r);
    let res = match op {
        CompareOp::Greater => exec_num_lt_bits(b, a),
        CompareOp::Less => exec_num_lt_bits(a, b),
        CompareOp::GreaterEq => exec_num_eq_bits(a, b) || exec_num_lt_bits(b, a),
        CompareOp::LessEq => exec_num_eq_bits(a, b) || exec_num_lt_bits(a, b),
    };
    Value::Bool(res)
}

/// The four relational operators.
pub enum CompareOp {
    Greater,
    Less,
    GreaterEq,
    LessEq,
}

/// Applies a binary operator to two evaluated operands.
fn apply_binary(op: &String, l: &Value, r: &Value) -> (res: Result<Value, EvaluationError>)
    ensures
        match apply_bin_spec(op@, l@, r@) {
            Result::Ok(v) => match res {
                Result::Ok(out) => out@ == v,
                Result::Err(_) => false,
            },
            Result::Err(e) => match res {
                Result::Ok(_) => false,
                Result::Err(err) => err@ == e,
            },
        },
{
    if *op == String::from_str("+") {
        Result::Ok(add_values(l, r))
    } else if *op == String::from_str("-") {
        Result::Ok(subtract_values(l, r))
    } else if *op == String::from_str("*") {
        Result::Ok(multiply_values(l, r))
    } else if *op == String::from_str("/") {
        Result::Ok(divide_values(l, r))
    } else if *op == String::from_str("%") {
        Result::Ok(modulo_values(l, r))
    } else if *op == String::from_str("&&") {
        let a = to_boolean(l);
        let b = to_boolean(r);
        Result::Ok(Value::Bool(a && b))
    } else if *op == String::from_str("||") {
        let a = to_boolean(l);
        let b = to_boolean(r);
        Result::Ok(Value::Bool(a || b))
    } else if *op == String::from_str("==") {
        Result::Ok(Value::Bool(abstract_equality(l, r)))
    } else if *op == String::from_str("!=") {
        Result::Ok(Value::Bool(!abstract_equality(l, r)))
    } else if *op == String::from_str("===") {
        Result::Ok(Value::Bool(strict_equality(l, r)))
    } else if *op == String::from_str("!==") {
        Result::Ok(Value::Bool(!strict_equality(l, r)))
    } else if *op == String::from_str(">") {
        Result::Ok(compare_values(l, r, CompareOp::Greater))
    } else if *op == String::from_str("<") {
        Result::Ok(compare_values(l, r, CompareOp::Less))
    } else if *op == String::from_str(">=") {
        Result::Ok(compare_values(l, r, CompareOp::GreaterEq))
    } else if *op == String::from_str("<=") {
        Result::Ok(compare_values(l, r, CompareOp::LessEq))
    } else {
        Result::Err(node_error_lit("Unsupported binary operator"))
    }
}

/// Applies a unary operator to an evaluated operand.
fn apply_unary(op: &String, v: &Value) -> (res: Result<Value, EvaluationError>)
    ensures
        match apply_unary_spec(op@, v@) {
            Result::Ok(w) => match res {
                Result::Ok(out) => out@ == w,
                Result::Err(_) => false,
            },
            Result::Err(e) => match res {
                Result::Ok(_) => false,
                Result::Err(err) => err@ == e,
            },
        },
{
    if *op == String::from_str("!") {
        Result::Ok(Value::Bool(!to_boolean(v)))
    } else if *op == String::from_str("-") {
        Result::Ok(Value::Number(exec_neg_bits(to_number(v))))
    } else if *op == String::from_str("+") {
        Result::Ok(Value::Number(to_number(v)))
    } else {
        Result::Err(node_error_lit("Unsupported unary operator"))
    }
}

/// Evaluates a literal token: a quoted string with escape processing, else
/// a numeric parse, then the keyword literals, else a structural error.
fn evaluate_literal(tok: &String) -> (res: Result<Value, EvaluationError>)
    ensures
        match literal_spec(tok@) {
            Result::Ok(v) => match res {
                Result::Ok(out) => out@ == v,
                Result::Err(_) => false,
            },
            Result::Err(e) => match res {
                Result::Ok(_) => false,
                Result::Err(err) => err@ == e,
            },
        },
{
    let n = tok.as_str().unicode_len();
    let quoted = if n > 0 {
        let c = tok.as_str().get_char(0);
        c == '"' || c == '\''
    } else {
        false
    };
    if quoted {
                let body = if n >= 2 {
                    let all = chars_of(tok.as_str());
                    let mut body: Vec<char> = Vec::new();
                    let mut i: usize = 1;
                    while i < n - 1
                        invariant
                            n == all@.len(),
                            n >= 2,
                            all@ == tok@,
                            1 <= i <= n - 1,
                            body@ == tok@.subrange(1, i as int),
                        decreases n - i,
                    {
                        body.push(all[i]);
                        proof {
                            assert(body@ =~= tok@.subrange(1, i + 1 as int));
                        }
                        i = i + 1;
                    }
                    body
                } else {
                    Vec::new()
                };
                proof {
                    assert(body@ =~= crate::semantics::strip_quotes_spec(tok@));
                }
                let processed = unescape_chars(&body);
                Result::Ok(Value::String(string_from_chars(&processed)))
    } else {
        match crate::coerce::js_parse_number(tok.as_str()) {
            Option::Some(bits) => Result::Ok(Value::Number(bits)),
            Option::None => {
                if *tok == String::from_str("true") {
                    Result::Ok(Value::Bool(true))
                } else if *tok == String::from_str("false") {
                    Result::Ok(Value::Bool(false))
                } else if *tok == String::from_str("null") {
                    Result::Ok(Value::Null)
                } else {
                    let msg = String::from_str("Unknown literal type: ").concat(tok.as_str());
                    Result::Err(node_error(msg))
                }
            },
        }
    }
}

/// The expression evaluator: an immutable context of named values and an
/// immutable registry of named custom functions, shared by every call.
pub struct Evaluator {
    pub(crate) context: Vec<(String, Value)>,
    pub(crate) custom_functions: Vec<(String, Arc<dyn CustomFunction>)>,
}

impl Evaluator {
    /// The model of the context: its entries, in order.
    pub closed spec fn ctx(&self) -> Seq<(Seq<char>, Vm)> {
        pair_vms_of(self.context@)
    }

    /// The model of the function registry: its entries, in order.
    pub closed spec fn fns(&self) -> Seq<(Seq<char>, Arc<dyn CustomFunction>)> {
        regs_of(self.custom_functions@)
    }

    /// Builds an evaluator over the given context entries and custom
    /// function registry; both are kept unchanged for its whole lifetime.
    pub fn new(
        context: Vec<(String, Value)>,
        custom_functions: Vec<(String, Arc<dyn CustomFunction>)>,
    ) -> (r: Evaluator)
        ensures
            r.ctx() == pair_vms_of(context@),
            r.fns() == regs_of(custom_functions@),
    {
        Evaluator { context, custom_functions }
    }

    /// Parses and evaluates an expression.  Exactly when the parsed program
    /// holds no top-level node, the result is the empty-expression error;
    /// otherwise it is what the model in `semantics` gives for the tree the
    /// lowering names pin for that program.  (`lowers_to` fixes that tree
    /// node by node over the accessor readings — spec code cannot build the
    /// tree's strings, so it stands as a bounded witness rather than a
    /// function of the text — and any two trees it admits agree in every
    /// view the model reads.)
    pub fn evaluate(&self, expression: &str) -> (res: Result<Value, EvaluationError>)
        ensures
            match first_child_of(root_of(expression@)) {
                Option::None => match res {
                    Result::Err(e) => e@ == ErrVm::Node("Empty expression"@),
                    Result::Ok(_) => false,
                },
                Option::Some(node) => exists|a: Ast|
                    #[trigger] lowers_to(node, parse_fuel(expression@.len()), a)
                        && outcome_matches(eval_ast(a, self.ctx(), self.fns()), res),
            },
    {
        match crate::lower::parse_to_ast(expression) {
            Option::None => Result::Err(node_error_lit("Empty expression")),
            Option::Some(ast) => {
                let res = self.evaluate_node(&ast);
                proof {
                    assert(outcome_matches(eval_ast(ast, self.ctx(), self.fns()), res));
                }
                res
            },
        }
    }

    /// Resolves an identifier: the reserved names `Infinity`, `NaN` and
    /// `undefined` first, then the context, and a structural error naming
    /// the identifier where it is absent.
    fn evaluate_by_name(&self, name: &String) -> (res: Result<Value, EvaluationError>)
        ensures
            match name_spec(name@, self.ctx()) {
                Result::Ok(v) => match res {
                    Result::Ok(out) => out@ == v,
                    Result::Err(_) => false,
                },
                Result::Err(e) => match res {
                    Result::Ok(_) => false,
                    Result::Err(err) => err@ == e,
                },
            },
    {
        if *name == String::from_str("Infinity") {
            Result::Ok(Value::Number(crate::numeric::INF_BITS))
        } else if *name == String::from_str("NaN") {
            Result::Ok(Value::Number(crate::numeric::NAN_BITS))
        } else if *name == String::from_str("undefined") {
            Result::Ok(Value::Null)
        } else {
            match lookup_value(&self.context, name) {
                Option::Some(v) => Result::Ok(v),
                Option::None => {
                    let msg = String::from_str("Identifier '").concat(name.as_str()).concat(
                        "' not found in context.",
                    );
                    Result::Err(node_error(msg))
                },
            }
        }
    }

    /// The index of the registry entry a name resolves to, or `None` where
    /// the name is unknown.
    fn find_function_index(&self, name: &String) -> (r: Option<usize>)
        ensures
            match find_fn_spec(self.fns(), name@) {
                Option::Some(fi) => match r {
                    Option::Some(i) => i < self.custom_functions@.len() && i as int == fi,
                    Option::None => false,
                },
                Option::None => r is None,
            },
    {
        let ghost full = self.fns();
        let n = self.custom_functions.len();
        let mut i: usize = 0;
        while i < n
            invariant
                n == self.custom_functions.len(),
                i <= n,
                full == self.fns(),
                full.len() == n,
                find_fn_spec(full, name@) == find_fn_from(full, name@, i as int),
            decreases n - i,
        {
            proof {
                assert(full[i as int] == (
                    self.custom_functions@[i as int].0@,
                    self.custom_functions@[i as int].1,
                ));
            }
            if self.custom_functions[i].0 == *name {
                return Option::Some(i);
            }
            i = i + 1;
        }
        Option::None
    }

    /// Resolves a property read on an already-evaluated receiver.
    fn resolve_property(&self, ov: Value, prop: &String) -> (res: Result<
        ResolvableValue,
        EvaluationError,
    >)
        ensures
            match crate::semantics::dot_resolve_spec(ov@, prop@) {
                Result::Ok(rv) => match res {
                    Result::Ok(out) => out@ == rv,
                    Result::Err(_) => false,
                },
                Result::Err(e) => match res {
                    Result::Ok(_) => false,
                    Result::Err(err) => err@ == e,
                },
            },
    {
        match ov {
            Value::Array(arr) => {
                if *prop == String::from_str("length") {
                    proof {
                        lemma_vms_of_len(arr@);
                    }
                    let n = arr.len();
                    Result::Ok(ResolvableValue::Json(Value::Number(num_from_usize(n))))
                } else if *prop == String::from_str("includes") {
                    Result::Ok(
                        ResolvableValue::BuiltInMethod {
                            object: Box::new(Value::Array(arr)),
                            method: BuiltInMethodKind::ArrayIncludes,
                        },
                    )
                } else {
                    Result::Ok(ResolvableValue::Json(Value::Null))
                }
            },
            Value::Object(pairs) => {
                if *prop == String::from_str("hasOwnProperty") {
                    Result::Ok(
                        ResolvableValue::BuiltInMethod {
                            object: Box::new(Value::Object(pairs)),
                            method: BuiltInMethodKind::ObjectHasOwnProperty,
                        },
                    )
                } else {
                    match lookup_value(&pairs, prop) {
                        Option::Some(v) => Result::Ok(ResolvableValue::Json(v)),
                        Option::None => Result::Ok(ResolvableValue::Json(Value::Null)),
                    }
                }
            },
            other => {
                let shown = value_to_string(&other);
                if *prop == String::from_str("length") {
                    let msg = String::from_str(
                        "Cannot read property 'length' of non-array/non-object value: ",
                    ).concat(shown.as_str());
                    Result::Err(EvaluationError::TypeError(msg))
                } else {
                    let msg = String::from_str("Cannot read properties of null or primitive value: ")
                        .concat(shown.as_str())
                        .concat(" (trying to access property: ")
                        .concat(prop.as_str())
                        .concat(")");
                    Result::Err(EvaluationError::TypeError(msg))
                }
            },
        }
    }

    /// Resolves a dot expression: the receiver evaluates first, then the
    /// property resolves on it.
    fn evaluate_dot_expr(&self, object: &Option<Box<Ast>>, prop: &Option<String>) -> (res: Result<
        ResolvableValue,
        EvaluationError,
    >)
        ensures
            resolve_matches(eval_dot_spec(*object, *prop, self.ctx(), self.fns()), res),
        decreases *object,
    {
        match object {
            Option::None => Result::Err(node_error_lit("Missing object in dot expression")),
            Option::Some(ob) => match prop {
                Option::None => Result::Err(
                    node_error_lit("Missing property name in dot expression"),
                ),
                Option::Some(p) => {
                    let ov = match self.evaluate_node(&**ob) {
                        Result::Ok(v) => v,
                        Result::Err(e) => {
                            return Result::Err(e);
                        },
                    };
                    self.resolve_property(ov, p)
                },
            },
        }
    }

    /// Applies a bound built-in method to the evaluated arguments: each
    /// built-in takes exactly one.
    fn apply_built_in(
        &self,
        recv: Box<Value>,
        kind: BuiltInMethodKind,
        args: &Vec<Value>,
    ) -> (res: Result<Value, EvaluationError>)
        ensures
            match apply_method_spec(recv@, kind, vms_of(args@)) {
                Result::Ok(v) => match res {
                    Result::Ok(out) => out@ == v,
                    Result::Err(_) => false,
                },
                Result::Err(e) => match res {
                    Result::Ok(_) => false,
                    Result::Err(err) => err@ == e,
                },
            },
    {
        proof {
            lemma_vms_of_len(args@);
        }
        if args.len() != 1 {
            return Result::Err(
                EvaluationError::CustomFunction(
                    CustomFuncError::ArityError { expected: 1, got: args.len() },
                ),
            );
        }
        proof {
            lemma_vms_of_index(args@, 0);
        }
        match kind {
            BuiltInMethodKind::ArrayIncludes => match &*recv {
                Value::Array(arr) => Result::Ok(Value::Bool(array_includes(arr, &args[0]))),
                _ => Result::Err(
                    EvaluationError::TypeError(
                        "ArrayIncludes method called on a non-array internal object.".to_owned(),
                    ),
                ),
            },
            BuiltInMethodKind::ObjectHasOwnProperty => match &*recv {
                Value::Object(pairs) => {
                    let key = value_to_string(&args[0]);
                    Result::Ok(Value::Bool(object_has_key(pairs, &key)))
                },
                _ => Result::Err(
                    EvaluationError::TypeError(
                        "ObjectHasOwnProperty method called on a non-object internal object.".to_owned(),
                    ),
                ),
            },
        }
    }

    /// Evaluates one node of the expression tree: exactly what the model
    /// says for it, error messages included; a registered function is the
    /// registry entry its name resolves to, applied to the evaluated
    /// argument values.
    pub fn evaluate_node(&self, a: &Ast) -> (res: Result<Value, EvaluationError>)
        ensures
            outcome_matches(eval_ast(*a, self.ctx(), self.fns()), res),
        decreases *a,
    {
        match a {
            Ast::Literal(tok) => evaluate_literal(tok),
            Ast::Name(n) => self.evaluate_by_name(n),
            Ast::ExprStmt(inner) => match inner {
                Option::None => Result::Err(node_error_lit("[Empty expression]")),
                Option::Some(b) => self.evaluate_node(&**b),
            },
            Ast::Grouping(inner) => match inner {
                Option::None => Result::Err(
                    node_error_lit("Missing inner expression in grouping expression"),
                ),
                Option::Some(b) => self.evaluate_node(&**b),
            },
            Ast::Binary { op, lhs, rhs } => match lhs {
                Option::None => Result::Err(node_error_lit("[Empty BinExpr Left Expression]")),
                Option::Some(lb) => match rhs {
                    Option::None => Result::Err(
                        node_error_lit("[Empty BinExpr Right Expression]"),
                    ),
                    Option::Some(rb) => {
                        let lv = match self.evaluate_node(&**lb) {
                            Result::Ok(v) => v,
                            Result::Err(e) => {
                                return Result::Err(e);
                            },
                        };
                        let rv = match self.evaluate_node(&**rb) {
                            Result::Ok(v) => v,
                            Result::Err(e) => {
                                return Result::Err(e);
                            },
                        };
                        match op {
                            Option::Some(o) => apply_binary(o, &lv, &rv),
                            Option::None => Result::Err(
                                node_error_lit("Unsupported binary operator"),
                            ),
                        }
                    },
                },
            },
            Ast::Unary { op, operand } => match operand {
                Option::None => Result::Err(node_error_lit("[Empty PrefixExpr Expression]")),
                Option::Some(ob) => {
                    let v = match self.evaluate_node(&**ob) {
                        Result::Ok(v) => v,
                        Result::Err(e) => {
                            return Result::Err(e);
                        },
                    };
                    match op {
                        Option::Some(o) => apply_unary(o, &v),
                        Option::None => Result::Err(node_error_lit("Unsupported unary operator")),
                    }
                },
            },
            Ast::Conditional { test, cons, alt } => match test {
                Option::None => Result::Err(node_error_lit("[Empty CondExpr Test Expression]")),
                Option::Some(tb) => match cons {
                    Option::None => Result::Err(
                        node_error_lit("[Empty CondExpr Consequent Expression]"),
                    ),
                    Option::Some(cb) => match alt {
                        Option::None => Result::Err(
                            node_error_lit("[Empty CondExpr Alternate Expression]"),
                        ),
                        Option::Some(ab) => {
                            let t = match self.evaluate_node(&**tb) {
                                Result::Ok(v) => v,
                                Result::Err(e) => {
                                    return Result::Err(e);
                                },
                            };
                            if to_boolean(&t) {
                                self.evaluate_node(&**cb)
                            } else {
                                self.evaluate_node(&**ab)
                            }
                        },
                    },
                },
            },
            Ast::Dot { object, prop, text: _ } => match self.evaluate_dot_expr(object, prop) {
                Result::Err(e) => Result::Err(e),
                Result::Ok(rv) => rv.try_into_value(),
            },
            Ast::Call { callee, args } => match callee {
                Option::None => Result::Err(node_error_lit("Missing callee in call expression")),
                Option::Some(c) => {
                    let ghost whole = eval_args_spec(args@, self.ctx(), self.fns());
                    let n = args.len();
                    let mut evaluated: Vec<Value> = Vec::new();
                    let mut i: usize = 0;
                    proof {
                        assert(args@.subrange(0, n as int) =~= args@);
                        crate::semantics::lemma_args_combine_empty(
                            eval_args_spec(args@.subrange(0, n as int), self.ctx(), self.fns()),
                        );
                    }
                    while i < n
                        invariant
                            decreases_to!(*a => *args),
                            *a == (Ast::Call { callee: *callee, args: *args }),
                            *callee == Option::Some(*c),
                            n == args.len(),
                            i <= n,
                            evaluated@.len() == i,
                            whole == eval_args_spec(args@, self.ctx(), self.fns()),
                            whole == crate::semantics::args_combine(
                                vms_of(evaluated@),
                                eval_args_spec(
                                    args@.subrange(i as int, n as int),
                                    self.ctx(),
                                    self.fns(),
                                ),
                            ),
                        decreases n - i,
                    {
                        proof {
                            vstd::std_specs::vec::axiom_vec_index_decreases(*args, i as int);
                            assert(args@.subrange(i as int, n as int)[0] == args@[i as int]);
                            assert(args@.subrange(i as int, n as int).drop_first()
                                =~= args@.subrange(i + 1 as int, n as int));
                        }
                        let ghost old_evaluated = evaluated@;
                        match self.evaluate_node(&args[i]) {
                            Result::Err(e) => {
                                proof {
                                    let rest = eval_args_spec(
                                        args@.subrange(i as int, n as int),
                                        self.ctx(),
                                        self.fns(),
                                    );
                                    match eval_ast(args@[i as int], self.ctx(), self.fns()) {
                                        Result::Err(e2) => {
                                            assert(rest == Result::<Seq<Vm>, ErrVm>::Err(e2));
                                            assert(whole == Result::<Seq<Vm>, ErrVm>::Err(e2));
                                        },
                                        Result::Ok(_) => {
                                            assert(false);
                                        },
                                    }
                                }
                                return Result::Err(e);
                            },
                            Result::Ok(v) => {
                                proof {
                                    crate::value::lemma_vms_of_push(old_evaluated, v);
                                    match eval_args_spec(
                                        args@.subrange(i + 1 as int, n as int),
                                        self.ctx(),
                                        self.fns(),
                                    ) {
                                        Result::Ok(ws) => {
                                            assert(vms_of(old_evaluated) + (seq![v@] + ws)
                                                =~= vms_of(old_evaluated.push(v)) + ws);
                                        },
                                        _ => {},
                                    }
                                }
                                evaluated.push(v);
                            },
                        }
                        i = i + 1;
                    }
                    proof {
                        assert(args@.subrange(n as int, n as int) =~= Seq::<Ast>::empty());
                        assert(vms_of(evaluated@) + Seq::<Vm>::empty() =~= vms_of(evaluated@));
                    }
                    match &*c.0 {
                        Ast::Name(f) => match self.find_function_index(f) {
                            Option::Some(idx) => {
                                let func = &self.custom_functions[idx].1;
                                let rv = func.call(evaluated.as_slice());
                                custom_result_to_evaluation(rv)
                            },
                            Option::None => {
                                let msg = String::from_str("Function '").concat(f.as_str())
                                    .concat("' not found.");
                                Result::Err(node_error(msg))
                            },
                        },
                        Ast::Dot { object, prop, text } => {
                            match self.evaluate_dot_expr(object, prop) {
                                Result::Err(e) => Result::Err(e),
                                Result::Ok(rv) => match rv {
                                    ResolvableValue::Json(v) => {
                                        let shown = value_to_string(&v);
                                        let msg = String::from_str("'").concat(shown.as_str())
                                            .concat("' (resulting from expression '")
                                            .concat(text.as_str())
                                            .concat("') is not a function.");
                                        Result::Err(EvaluationError::TypeError(msg))
                                    },
                                    ResolvableValue::BuiltInMethod { object: recv, method } => {
                                        self.apply_built_in(recv, method, &evaluated)
                                    },
                                },
                            }
                        },
                        _ => {
                            let msg = String::from_str("Unsupported callee type: ").concat(
                                c.1.as_str(),
                            ).concat(". Expected identifier or member expression.");
                            Result::Err(node_error(msg))
                        },
                    }
                },
            },
            Ast::ArrayLit { empty } => if *empty {
                Result::Ok(Value::Array(Vec::new()))
            } else {
                Result::Err(node_error_lit("Complex array literals are not yet supported."))
            },
            Ast::ObjectLit { empty } => if *empty {
                Result::Ok(Value::Object(Vec::new()))
            } else {
                Result::Err(node_error_lit("Complex object literals are not yet supported."))
            },
            Ast::Unsupported(kind) => {
                let msg = String::from_str("Unsupported syntax kind: ").concat(kind.as_str());
                Result::Err(node_error(msg))
            },
            Ast::TooDeep => Result::Err(node_error_lit("Expression is nested too deeply")),
        }
    }
}

impl ResolvableValue {
    /// A resolved value passes through; consuming a bound method as a value
    /// is a type error.
    pub fn try_into_value(self) -> (res: Result<Value, EvaluationError>)
        ensures
            match self@ {
                crate::errors::ResolvableVm::Val(v) => match res {
                    Result::Ok(out) => out@ == v,
                    Result::Err(_) => false,
                },
                crate::errors::ResolvableVm::Method(recv, kind) => match res {
                    Result::Ok(_) => false,
                    Result::Err(err) => err@ == crate::errors::ErrVm::Type(
                        crate::semantics::msg_method_as_value(
                            kind,
                            crate::coerce::to_string_spec(recv),
                        ),
                    ),
                },
            },
    {
        match self {
            ResolvableValue::Json(v) => Result::Ok(v),
            ResolvableValue::BuiltInMethod { object, method } => {
                let kind_name = match method {
                    BuiltInMethodKind::ArrayIncludes => String::from_str("ArrayIncludes"),
                    BuiltInMethodKind::ObjectHasOwnProperty => String::from_str(
                        "ObjectHasOwnProperty",
                    ),
                };
                let shown = value_to_string(&*object);
                let msg = String::from_str("Cannot use built-in method ").concat(
                    kind_name.as_str(),
                ).concat(" on ").concat(shown.as_str()).concat(" as a value.");
                Result::Err(EvaluationError::TypeError(msg))
            },
        }
    }
}

} // verus!
