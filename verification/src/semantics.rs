//! The denotational model of evaluation: what every expression tree means
//! over a context and a registry of custom functions.
//!
//! The model is total.  A custom function enters it through the `response`
//! spec function its implementation carries, so a call's outcome — which
//! registry entry is applied, to which evaluated argument values, and what
//! comes back — is pinned like everything else, error messages included.

use crate::ast::Ast;
use crate::coerce::{to_boolean_spec, to_number_spec, to_string_spec};
use crate::equality::{abstract_eq_spec, same_value_zero_spec, strict_eq_spec};
use crate::errors::{BuiltInMethodKind, CustomFuncErrorVm, CustomFunction, ErrVm, ResolvableVm};
use crate::numeric::{
    add_bits, div_bits, from_usize_bits, mul_bits, neg_bits, num_ge_bits, num_gt_bits,
    num_le_bits, num_lt_bits, rem_bits, sub_bits, INF_BITS, NAN_BITS,
};
use crate::text::unescape_spec;
use crate::value::Vm;
use std::sync::Arc;
use vstd::prelude::*;

verus! {

/// The value under `key` in an ordered key/value sequence: the first match
/// wins, so on unique keys this is plain map lookup.
pub open spec fn lookup_spec(pairs: Seq<(Seq<char>, Vm)>, key: Seq<char>) -> Option<Vm>
    decreases pairs.len(),
{
    if pairs.len() == 0 {
        Option::None
    } else if pairs[0].0 == key {
        Option::Some(pairs[0].1)
    } else {
        lookup_spec(pairs.drop_first(), key)
    }
}

/// The index of the registry entry under `name`, scanning from `i`: the
/// first match wins, so on unique names this is plain map lookup.
pub open spec fn find_fn_from(
    fns: Seq<(Seq<char>, Arc<dyn CustomFunction>)>,
    name: Seq<char>,
    i: int,
) -> Option<int>
    decreases fns.len() - i,
{
    if i < 0 || i >= fns.len() {
        Option::None
    } else if fns[i].0 == name {
        Option::Some(i)
    } else {
        find_fn_from(fns, name, i + 1)
    }
}

/// The index of the registry entry under `name`.
pub open spec fn find_fn_spec(
    fns: Seq<(Seq<char>, Arc<dyn CustomFunction>)>,
    name: Seq<char>,
) -> Option<int> {
    find_fn_from(fns, name, 0)
}

/// Whether an ordered key/value sequence holds `key`.
pub open spec fn has_key_spec(pairs: Seq<(Seq<char>, Vm)>, key: Seq<char>) -> bool {
    exists|i: int| 0 <= i < pairs.len() && pairs[i].0 == key
}

/// Whether `elems` contains `x` under SameValueZero — what `includes` asks.
pub open spec fn includes_spec(elems: Seq<Vm>, x: Vm) -> bool {
    exists|i: int| 0 <= i < elems.len() && same_value_zero_spec(elems[i], x)
}

/// An empty array contains nothing: `[].includes(x)` is false for every `x`.
pub proof fn lemma_includes_empty(x: Vm)
    ensures
        !includes_spec(Seq::empty(), x),
        apply_method_spec(Vm::Arr(Seq::empty()), BuiltInMethodKind::ArrayIncludes, seq![x])
            == Result::<Vm, ErrVm>::Ok(Vm::Bool(false)),
{
    assert(seq![x].len() == 1);
    assert(seq![x][0] == x);
}

/// A one-element array contains its element: `[x].includes(x)` is true via
/// SameValueZero for every `x` that is not an array or object.  (An array or
/// object never compares equal to anything, itself included, so those are
/// left out.)
pub proof fn lemma_includes_singleton(x: Vm)
    requires
        !(x is Arr),
        !(x is Obj),
    ensures
        includes_spec(seq![x], x),
        apply_method_spec(Vm::Arr(seq![x]), BuiltInMethodKind::ArrayIncludes, seq![x])
            == Result::<Vm, ErrVm>::Ok(Vm::Bool(true)),
{
    assert(same_value_zero_spec(x, x));
    assert(seq![x][0] == x);
    assert(seq![x].len() == 1);
}

/// An empty object owns no property: `{}.hasOwnProperty(k)` is false for
/// every key `k`.
pub proof fn lemma_has_key_empty(k: Seq<char>)
    ensures
        !has_key_spec(Seq::empty(), k),
        apply_method_spec(
            Vm::Obj(Seq::empty()),
            BuiltInMethodKind::ObjectHasOwnProperty,
            seq![Vm::Str(k)],
        ) == Result::<Vm, ErrVm>::Ok(Vm::Bool(false)),
{
    assert(seq![Vm::Str(k)].len() == 1);
    assert(seq![Vm::Str(k)][0] == Vm::Str(k));
}

/// After a key is inserted, the object owns it: `hasOwnProperty(k)` is true
/// on any object extended with an entry under `k`.
pub proof fn lemma_has_key_after_insert(pairs: Seq<(Seq<char>, Vm)>, k: Seq<char>, v: Vm)
    ensures
        has_key_spec(pairs.push((k, v)), k),
        apply_method_spec(
            Vm::Obj(pairs.push((k, v))),
            BuiltInMethodKind::ObjectHasOwnProperty,
            seq![Vm::Str(k)],
        ) == Result::<Vm, ErrVm>::Ok(Vm::Bool(true)),
{
    assert(pairs.push((k, v))[pairs.len() as int] == (k, v));
    assert(seq![Vm::Str(k)].len() == 1);
    assert(seq![Vm::Str(k)][0] == Vm::Str(k));
}

pub open spec fn msg_unknown_identifier(name: Seq<char>) -> Seq<char> {
    "Identifier '"@ + name + "' not found in context."@
}

pub open spec fn msg_unknown_function(name: Seq<char>) -> Seq<char> {
    "Function '"@ + name + "' not found."@
}

pub open spec fn msg_unknown_literal(tok: Seq<char>) -> Seq<char> {
    "Unknown literal type: "@ + tok
}

pub open spec fn msg_unsupported_kind(kind: Seq<char>) -> Seq<char> {
    "Unsupported syntax kind: "@ + kind
}

pub open spec fn msg_unsupported_callee(kind: Seq<char>) -> Seq<char> {
    "Unsupported callee type: "@ + kind + ". Expected identifier or member expression."@
}

pub open spec fn msg_length_of_primitive(shown: Seq<char>) -> Seq<char> {
    "Cannot read property 'length' of non-array/non-object value: "@ + shown
}

pub open spec fn msg_primitive_property(shown: Seq<char>, prop: Seq<char>) -> Seq<char> {
    "Cannot read properties of null or primitive value: "@ + shown
        + " (trying to access property: "@ + prop + ")"@
}

pub open spec fn msg_not_a_function(shown: Seq<char>, expr_text: Seq<char>) -> Seq<char> {
    "'"@ + shown + "' (resulting from expression '"@ + expr_text + "') is not a function."@
}

pub open spec fn method_name_spec(kind: BuiltInMethodKind) -> Seq<char> {
    match kind {
        BuiltInMethodKind::ArrayIncludes => "ArrayIncludes"@,
        BuiltInMethodKind::ObjectHasOwnProperty => "ObjectHasOwnProperty"@,
    }
}

pub open spec fn msg_method_as_value(kind: BuiltInMethodKind, shown: Seq<char>) -> Seq<char> {
    "Cannot use built-in method "@ + method_name_spec(kind) + " on "@ + shown + " as a value."@
}

/// What a literal token means: a quoted token is a string (quotes stripped,
/// escapes processed), an unquoted one is a number if it parses as one, else
/// one of the keyword literals, else a structural error.  (A quoted token
/// never parses as a number, so testing the quote first loses nothing.)
pub open spec fn literal_spec(tok: Seq<char>) -> Result<Vm, ErrVm> {
    if tok.len() > 0 && (tok[0] == '"' || tok[0] == '\'') {
        Result::Ok(Vm::Str(unescape_spec(strip_quotes_spec(tok))))
    } else {
        match crate::coerce::js_parse_spec(tok) {
            Option::Some(b) => Result::Ok(Vm::Num(b)),
            Option::None => {
                if tok == "true"@ {
                    Result::Ok(Vm::Bool(true))
                } else if tok == "false"@ {
                    Result::Ok(Vm::Bool(false))
                } else if tok == "null"@ {
                    Result::Ok(Vm::Null)
                } else {
                    Result::Err(ErrVm::Node(msg_unknown_literal(tok)))
                }
            },
        }
    }
}

/// A quoted token without its first and last character; a lone quote yields
/// the empty body.
pub open spec fn strip_quotes_spec(tok: Seq<char>) -> Seq<char> {
    if tok.len() >= 2 {
        tok.subrange(1, tok.len() - 1)
    } else {
        Seq::empty()
    }
}

/// What an identifier means: the reserved names `Infinity`, `NaN` and
/// `undefined` come first; any other name is read from the context, and a
/// missing one is a structural error.
pub open spec fn name_spec(name: Seq<char>, ctx: Seq<(Seq<char>, Vm)>) -> Result<Vm, ErrVm> {
    if name == "Infinity"@ {
        Result::Ok(Vm::Num(INF_BITS))
    } else if name == "NaN"@ {
        Result::Ok(Vm::Num(NAN_BITS))
    } else if name == "undefined"@ {
        Result::Ok(Vm::Null)
    } else {
        match lookup_spec(ctx, name) {
            Option::Some(v) => Result::Ok(v),
            Option::None => Result::Err(ErrVm::Node(msg_unknown_identifier(name))),
        }
    }
}

/// What `+` means: two numbers add; if either side is a string the other is
/// coerced with ToString and the sides concatenate; any other pair
/// concatenates the ToString of both sides.
pub open spec fn add_spec(l: Vm, r: Vm) -> Vm {
    match (l, r) {
        (Vm::Num(a), Vm::Num(b)) => Vm::Num(add_bits(a, b)),
        (Vm::Str(a), Vm::Str(b)) => Vm::Str(a + b),
        (Vm::Str(a), other) => Vm::Str(a + to_string_spec(other)),
        (other, Vm::Str(b)) => Vm::Str(to_string_spec(other) + b),
        _ => Vm::Str(to_string_spec(l) + to_string_spec(r)),
    }
}

/// What a binary operator means on two already-evaluated operands.
pub open spec fn apply_bin_spec(op: Seq<char>, l: Vm, r: Vm) -> Result<Vm, ErrVm> {
    if op == "+"@ {
        Result::Ok(add_spec(l, r))
    } else if op == "-"@ {
        Result::Ok(Vm::Num(sub_bits(to_number_spec(l), to_number_spec(r))))
    } else if op == "*"@ {
        Result::Ok(Vm::Num(mul_bits(to_number_spec(l), to_number_spec(r))))
    } else if op == "/"@ {
        Result::Ok(Vm::Num(div_bits(to_number_spec(l), to_number_spec(r))))
    } else if op == "%"@ {
        Result::Ok(Vm::Num(rem_bits(to_number_spec(l), to_number_spec(r))))
    } else if op == "&&"@ {
        Result::Ok(Vm::Bool(to_boolean_spec(l) && to_boolean_spec(r)))
    } else if op == "||"@ {
        Result::Ok(Vm::Bool(to_boolean_spec(l) || to_boolean_spec(r)))
    } else if op == "=="@ {
        Result::Ok(Vm::Bool(abstract_eq_spec(l, r)))
    } else if op == "!="@ {
        Result::Ok(Vm::Bool(!abstract_eq_spec(l, r)))
    } else if op == "==="@ {
        Result::Ok(Vm::Bool(strict_eq_spec(l, r)))
    } else if op == "!=="@ {
        Result::Ok(Vm::Bool(!strict_eq_spec(l, r)))
    } else if op == ">"@ {
        Result::Ok(Vm::Bool(num_gt_bits(to_number_spec(l), to_number_spec(r))))
    } else if op == "<"@ {
        Result::Ok(Vm::Bool(num_lt_bits(to_number_spec(l), to_number_spec(r))))
    } else if op == ">="@ {
        Result::Ok(Vm::Bool(num_ge_bits(to_number_spec(l), to_number_spec(r))))
    } else if op == "<="@ {
        Result::Ok(Vm::Bool(num_le_bits(to_number_spec(l), to_number_spec(r))))
    } else {
        Result::Err(ErrVm::Node("Unsupported binary operator"@))
    }
}

/// What a unary operator means on an already-evaluated operand.
pub open spec fn apply_unary_spec(op: Seq<char>, v: Vm) -> Result<Vm, ErrVm> {
    if op == "!"@ {
        Result::Ok(Vm::Bool(!to_boolean_spec(v)))
    } else if op == "-"@ {
        Result::Ok(Vm::Num(neg_bits(to_number_spec(v))))
    } else if op == "+"@ {
        Result::Ok(Vm::Num(to_number_spec(v)))
    } else {
        Result::Err(ErrVm::Node("Unsupported unary operator"@))
    }
}

/// What a property read on an evaluated receiver resolves to.
///
/// On an array, `length` is its length as a number, `includes` is a bound
/// method, and any other name is null.  On an object, `hasOwnProperty` is a
/// bound method and any other name is a key lookup, null when absent.  On
/// null or a primitive, any property access is a type error, with a message
/// that names `length` specially.
pub open spec fn dot_resolve_spec(obj: Vm, prop: Seq<char>) -> Result<ResolvableVm, ErrVm> {
    match obj {
        Vm::Arr(elems) => {
            if prop == "length"@ {
                Result::Ok(ResolvableVm::Val(Vm::Num(from_usize_bits(elems.len() as usize))))
            } else if prop == "includes"@ {
                Result::Ok(ResolvableVm::Method(obj, BuiltInMethodKind::ArrayIncludes))
            } else {
                Result::Ok(ResolvableVm::Val(Vm::Null))
            }
        },
        Vm::Obj(pairs) => {
            if prop == "hasOwnProperty"@ {
                Result::Ok(ResolvableVm::Method(obj, BuiltInMethodKind::ObjectHasOwnProperty))
            } else {
                match lookup_spec(pairs, prop) {
                    Option::Some(v) => Result::Ok(ResolvableVm::Val(v)),
                    Option::None => Result::Ok(ResolvableVm::Val(Vm::Null)),
                }
            }
        },
        _ => {
            if prop == "length"@ {
                Result::Err(ErrVm::Type(msg_length_of_primitive(to_string_spec(obj))))
            } else {
                Result::Err(ErrVm::Type(msg_primitive_property(to_string_spec(obj), prop)))
            }
        },
    }
}

/// What a built-in method call means, given the bound receiver and the
/// evaluated arguments.  Each built-in takes exactly one argument.
pub open spec fn apply_method_spec(recv: Vm, kind: BuiltInMethodKind, args: Seq<Vm>) -> Result<
    Vm,
    ErrVm,
> {
    if args.len() != 1 {
        Result::Err(
            ErrVm::Custom(CustomFuncErrorVm::Arity { expected: 1, got: args.len() as int }),
        )
    } else {
        match kind {
            BuiltInMethodKind::ArrayIncludes => match recv {
                Vm::Arr(elems) => Result::Ok(Vm::Bool(includes_spec(elems, args[0]))),
                _ => Result::Err(
                    ErrVm::Type("ArrayIncludes method called on a non-array internal object."@),
                ),
            },
            BuiltInMethodKind::ObjectHasOwnProperty => match recv {
                Vm::Obj(pairs) => Result::Ok(
                    Vm::Bool(has_key_spec(pairs, to_string_spec(args[0]))),
                ),
                _ => Result::Err(
                    ErrVm::Type(
                        "ObjectHasOwnProperty method called on a non-object internal object."@,
                    ),
                ),
            },
        }
    }
}

/// What one expression tree means over a context and the registry.  Operands
/// evaluate eagerly and left to right; `&&` and `||` do not short-circuit;
/// only a conditional leaves its untaken branch unevaluated.  A call to a
/// registered function applies that entry's `response` to the evaluated
/// argument values.
pub open spec fn eval_ast(
    a: Ast,
    ctx: Seq<(Seq<char>, Vm)>,
    fns: Seq<(Seq<char>, Arc<dyn CustomFunction>)>,
) -> Result<Vm, ErrVm>
    decreases a,
    via eval_ast_decreases
{
    match a {
        Ast::Literal(tok) => literal_spec(tok@),
        Ast::Name(n) => name_spec(n@, ctx),
        Ast::ExprStmt(inner) => match inner {
            Option::None => Result::Err(ErrVm::Node("[Empty expression]"@)),
            Option::Some(b) => eval_ast(*b, ctx, fns),
        },
        Ast::Grouping(inner) => match inner {
            Option::None => Result::Err(
                ErrVm::Node("Missing inner expression in grouping expression"@),
            ),
            Option::Some(b) => eval_ast(*b, ctx, fns),
        },
        Ast::Binary { op, lhs, rhs } => match (lhs, rhs) {
            (Option::None, _) => Result::Err(ErrVm::Node("[Empty BinExpr Left Expression]"@)),
            (_, Option::None) => Result::Err(ErrVm::Node("[Empty BinExpr Right Expression]"@)),
            (Option::Some(lb), Option::Some(rb)) => match eval_ast(*lb, ctx, fns) {
                Result::Err(e) => Result::Err(e),
                Result::Ok(l) => match eval_ast(*rb, ctx, fns) {
                    Result::Err(e) => Result::Err(e),
                    Result::Ok(r) => match op {
                        Option::Some(o) => apply_bin_spec(o@, l, r),
                        Option::None => Result::Err(
                            ErrVm::Node("Unsupported binary operator"@),
                        ),
                    },
                },
            },
        },
        Ast::Unary { op, operand } => match operand {
            Option::None => Result::Err(ErrVm::Node("[Empty PrefixExpr Expression]"@)),
            Option::Some(ob) => match eval_ast(*ob, ctx, fns) {
                Result::Err(e) => Result::Err(e),
                Result::Ok(v) => match op {
                    Option::Some(o) => apply_unary_spec(o@, v),
                    Option::None => Result::Err(ErrVm::Node("Unsupported unary operator"@)),
                },
            },
        },
        Ast::Conditional { test, cons, alt } => match (test, cons, alt) {
            (Option::None, _, _) => Result::Err(
                ErrVm::Node("[Empty CondExpr Test Expression]"@),
            ),
            (_, Option::None, _) => Result::Err(
                ErrVm::Node("[Empty CondExpr Consequent Expression]"@),
            ),
            (_, _, Option::None) => Result::Err(
                ErrVm::Node("[Empty CondExpr Alternate Expression]"@),
            ),
            (Option::Some(tb), Option::Some(cb), Option::Some(ab)) => match eval_ast(
                *tb,
                ctx,
                fns,
            ) {
                Result::Err(e) => Result::Err(e),
                Result::Ok(t) => if to_boolean_spec(t) {
                    eval_ast(*cb, ctx, fns)
                } else {
                    eval_ast(*ab, ctx, fns)
                },
            },
        },
        Ast::Dot { object, prop, text } => match eval_dot_spec(object, prop, ctx, fns) {
            Result::Err(e) => Result::Err(e),
            Result::Ok(rv) => match rv {
                ResolvableVm::Val(v) => Result::Ok(v),
                ResolvableVm::Method(recv, kind) => Result::Err(
                    ErrVm::Type(msg_method_as_value(kind, to_string_spec(recv))),
                ),
            },
        },
        Ast::Call { callee, args } => match callee {
            Option::None => Result::Err(ErrVm::Node("Missing callee in call expression"@)),
            Option::Some(c) => match eval_args_spec(args@, ctx, fns) {
                Result::Err(e) => Result::Err(e),
                Result::Ok(vs) => match *c.0 {
                    Ast::Name(f) => match find_fn_spec(fns, f@) {
                        Option::None => Result::Err(ErrVm::Node(msg_unknown_function(f@))),
                        Option::Some(i) => match fns[i].1.response(vs) {
                            Result::Ok(v) => Result::Ok(v),
                            Result::Err(ce) => Result::Err(ErrVm::Custom(ce)),
                        },
                    },
                    Ast::Dot { object, prop, text } => match eval_dot_spec(
                        object,
                        prop,
                        ctx,
                        fns,
                    ) {
                        Result::Err(e) => Result::Err(e),
                        Result::Ok(rv) => match rv {
                            ResolvableVm::Val(v) => Result::Err(
                                ErrVm::Type(msg_not_a_function(to_string_spec(v), text@)),
                            ),
                            ResolvableVm::Method(recv, kind) => apply_method_spec(recv, kind, vs),
                        },
                    },
                    _ => Result::Err(ErrVm::Node(msg_unsupported_callee(c.1@))),
                },
            },
        },
        Ast::ArrayLit { empty } => if empty {
            Result::Ok(Vm::Arr(Seq::empty()))
        } else {
            Result::Err(ErrVm::Node("Complex array literals are not yet supported."@))
        },
        Ast::ObjectLit { empty } => if empty {
            Result::Ok(Vm::Obj(Seq::empty()))
        } else {
            Result::Err(ErrVm::Node("Complex object literals are not yet supported."@))
        },
        Ast::Unsupported(kind) => Result::Err(ErrVm::Node(msg_unsupported_kind(kind@))),
        Ast::TooDeep => Result::Err(ErrVm::Node("Expression is nested too deeply"@)),
    }
}

/// What resolving a dot expression's parts means: a missing child is a
/// structural error; otherwise the receiver evaluates and the property
/// resolves on it.
pub open spec fn eval_dot_spec(
    object: Option<Box<Ast>>,
    prop: Option<String>,
    ctx: Seq<(Seq<char>, Vm)>,
    fns: Seq<(Seq<char>, Arc<dyn CustomFunction>)>,
) -> Result<ResolvableVm, ErrVm>
    decreases object,
{
    match object {
        Option::None => Result::Err(ErrVm::Node("Missing object in dot expression"@)),
        Option::Some(ob) => match prop {
            Option::None => Result::Err(
                ErrVm::Node("Missing property name in dot expression"@),
            ),
            Option::Some(p) => match eval_ast(*ob, ctx, fns) {
                Result::Err(e) => Result::Err(e),
                Result::Ok(ov) => dot_resolve_spec(ov, p@),
            },
        },
    }
}

/// What evaluating an argument list means: each argument in order, stopping
/// at the first failure.
pub open spec fn eval_args_spec(
    args: Seq<Ast>,
    ctx: Seq<(Seq<char>, Vm)>,
    fns: Seq<(Seq<char>, Arc<dyn CustomFunction>)>,
) -> Result<Seq<Vm>, ErrVm>
    decreases args,
{
    if args.len() == 0 {
        Result::Ok(Seq::empty())
    } else {
        match eval_ast(args[0], ctx, fns) {
            Result::Err(e) => Result::Err(e),
            Result::Ok(v) => match eval_args_spec(args.drop_first(), ctx, fns) {
                Result::Ok(vs) => Result::Ok(seq![v] + vs),
                Result::Err(e) => Result::Err(e),
            },
        }
    }
}

/// Prepends already-evaluated argument values to the outcome of the
/// remaining argument list.
pub open spec fn args_combine(vs: Seq<Vm>, rest: Result<Seq<Vm>, ErrVm>) -> Result<Seq<Vm>, ErrVm> {
    match rest {
        Result::Ok(ws) => Result::Ok(vs + ws),
        Result::Err(e) => Result::Err(e),
    }
}

pub proof fn lemma_args_combine_empty(rest: Result<Seq<Vm>, ErrVm>)
    ensures
        args_combine(Seq::empty(), rest) == rest,
{
    match rest {
        Result::Ok(ws) => {
            assert(Seq::empty() + ws =~= ws);
        },
        _ => {},
    }
}

#[via_fn]
proof fn eval_ast_decreases(
    a: Ast,
    ctx: Seq<(Seq<char>, Vm)>,
    fns: Seq<(Seq<char>, Arc<dyn CustomFunction>)>,
) {
    broadcast use vstd::seq::axiom_seq_index_decreases, vstd::seq::axiom_seq_subrange_decreases, vstd::std_specs::vec::axiom_vec_decreases_to_view;

    match a {
        Ast::Call { callee, args } => {
            assert(decreases_to!(a => args));
        },
        _ => {},
    }
}

} // verus!
