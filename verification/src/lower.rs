//! The parser boundary: `rslint_parser` turns expression text into a
//! concrete syntax tree, and this module copies the shape the evaluator
//! needs out of that tree into the crate's own `Ast`.
//!
//! The tree is outside data, so each accessor is a small trusted wrapper
//! around the parser's own API, and what it reads is given a name: an
//! uninterpreted spec function of the handle (the parser is deterministic,
//! so the root is likewise a function of the text alone).  Over those names,
//! `lowers_to` says exactly which `Ast` the walk produces, and the lowering
//! itself is verified against it.  Lowering never rejects anything: a
//! malformed or unsupported node becomes an `Ast` node that reports its
//! error only if evaluation reaches it, as the evaluator's model says.

use crate::ast::Ast;
use rslint_parser::ast::AstNode;
use vstd::prelude::*;

verus! {

/// An opaque handle on one node of the parser's syntax tree.  Nothing about
/// a handle is visible to verification; every read goes through the trusted
/// accessors below, whose readings the uninterpreted functions beside them
/// name.
#[verifier::external_body]
pub struct SyntaxHandle {
    node: rslint_parser::SyntaxNode,
}

/// The node kinds the evaluator distinguishes.  `Name` covers the parser's
/// three identifier kinds, which the evaluator treats alike.
pub enum NodeKind {
    ExprStmt,
    Dot,
    Name,
    Binary,
    Literal,
    Conditional,
    Unary,
    Call,
    Grouping,
    ArrayLit,
    ObjectLit,
    Other,
}

/// The root syntax node the parser yields for a text.
pub uninterp spec fn root_of(text: Seq<char>) -> SyntaxHandle;

/// A node's first child node, if any.
pub uninterp spec fn first_child_of(n: SyntaxHandle) -> Option<SyntaxHandle>;

/// Which of the evaluator's node kinds a node has.
pub uninterp spec fn kind_of(n: SyntaxHandle) -> NodeKind;

/// The name of a node's kind, as error messages quote it.
pub uninterp spec fn kind_name_of(n: SyntaxHandle) -> Seq<char>;

/// A node's source text.
pub uninterp spec fn text_of(n: SyntaxHandle) -> Seq<char>;

/// How many child nodes a node has.
pub uninterp spec fn child_count_of(n: SyntaxHandle) -> usize;

/// The i-th child of a node that is an expression node, if any.
pub uninterp spec fn expr_child_of(n: SyntaxHandle, i: usize) -> Option<SyntaxHandle>;

/// The property-name text of a dot expression, if present.
pub uninterp spec fn dot_prop_of(n: SyntaxHandle) -> Option<Seq<char>>;

/// The operator token text of a binary expression, if present.
pub uninterp spec fn bin_op_of(n: SyntaxHandle) -> Option<Seq<char>>;

/// The operator token text of a unary expression, if present.
pub uninterp spec fn unary_op_of(n: SyntaxHandle) -> Option<Seq<char>>;

/// The argument-list node of a call expression, if present.
pub uninterp spec fn arg_list_of(n: SyntaxHandle) -> Option<SyntaxHandle>;

/// Relies on `rslint_parser::parse_text` and `Parse::syntax`: parses program
/// text (with error recovery; a tree always comes back) and returns the root
/// syntax node, a deterministic function of the text.
#[verifier::external_body]
fn parse_program(text: &str) -> (r: SyntaxHandle)
    ensures
        r == root_of(text@),
{
    SyntaxHandle { node: rslint_parser::parse_text(text, 0).syntax() }
}

/// Relies on `rslint_rowan::SyntaxNode::first_child`: the first child node,
/// if any.
#[verifier::external_body]
fn first_child(n: &SyntaxHandle) -> (r: Option<SyntaxHandle>)
    ensures
        r == first_child_of(*n),
{
    n.node.first_child().map(|c| SyntaxHandle { node: c })
}

/// Relies on `rslint_rowan::SyntaxNode::kind`: tells the node kinds the
/// evaluator knows apart, one arm per kind.
#[verifier::external_body]
fn node_kind(n: &SyntaxHandle) -> (r: NodeKind)
    ensures
        r == kind_of(*n),
{
    match n.node.kind() {
        rslint_parser::SyntaxKind::EXPR_STMT => NodeKind::ExprStmt,
        rslint_parser::SyntaxKind::DOT_EXPR => NodeKind::Dot,
        rslint_parser::SyntaxKind::NAME | rslint_parser::SyntaxKind::NAME_REF | rslint_parser::SyntaxKind::IDENT => NodeKind::Name,
        rslint_parser::SyntaxKind::BIN_EXPR => NodeKind::Binary,
        rslint_parser::SyntaxKind::LITERAL => NodeKind::Literal,
        rslint_parser::SyntaxKind::COND_EXPR => NodeKind::Conditional,
        rslint_parser::SyntaxKind::UNARY_EXPR => NodeKind::Unary,
        rslint_parser::SyntaxKind::CALL_EXPR => NodeKind::Call,
        rslint_parser::SyntaxKind::GROUPING_EXPR => NodeKind::Grouping,
        rslint_parser::SyntaxKind::ARRAY_EXPR => NodeKind::ArrayLit,
        rslint_parser::SyntaxKind::OBJECT_EXPR => NodeKind::ObjectLit,
        _ => NodeKind::Other,
    }
}

/// Relies on `rslint_rowan::SyntaxNode::kind` and `SyntaxKind`'s `Debug`
/// form, which error messages quote.
#[verifier::external_body]
fn node_kind_name(n: &SyntaxHandle) -> (r: String)
    ensures
        r@ == kind_name_of(*n),
{
    format!("{:?}", n.node.kind())
}

/// Relies on `rslint_rowan::SyntaxNode::text`: the node's source text.
#[verifier::external_body]
fn node_text(n: &SyntaxHandle) -> (r: String)
    ensures
        r@ == text_of(*n),
{
    n.node.text().to_string()
}

/// Relies on `rslint_rowan::SyntaxNode::children`: how many child nodes the
/// node has.
#[verifier::external_body]
fn child_count(n: &SyntaxHandle) -> (r: usize)
    ensures
        r == child_count_of(*n),
{
    n.node.children().count()
}

/// Relies on `Expr::cast` over `SyntaxNode::children`: the i-th child that
/// is an expression node — how `BinExpr::lhs`/`rhs`, `CondExpr::test`/
/// `cons`/`alt`, `DotExpr::object`, `GroupingExpr::inner`, `UnaryExpr::expr`,
/// `CallExpr::callee` and `ArgList::args` read the tree.
#[verifier::external_body]
fn nth_expr_child(n: &SyntaxHandle, i: usize) -> (r: Option<SyntaxHandle>)
    ensures
        r == expr_child_of(*n, i),
{
    let c = n.node.children().filter_map(rslint_parser::ast::Expr::cast).nth(i);
    c.map(|e| SyntaxHandle { node: e.syntax().clone() })
}

/// Relies on `DotExpr::cast` and `DotExpr::prop`: the property name's text.
#[verifier::external_body]
fn dot_prop_text(n: &SyntaxHandle) -> (r: Option<String>)
    ensures
        match dot_prop_of(*n) {
            Option::Some(p) => match r {
                Option::Some(out) => out@ == p,
                Option::None => false,
            },
            Option::None => match r {
                Option::Some(_) => false,
                Option::None => true,
            },
        },
{
    let d = rslint_parser::ast::DotExpr::cast(n.node.clone())?;
    d.prop().map(|p| p.syntax().text().to_string())
}

/// Relies on `BinExpr::cast` and `BinExpr::op_details`: the operator
/// token's text.
#[verifier::external_body]
fn bin_op_text(n: &SyntaxHandle) -> (r: Option<String>)
    ensures
        match bin_op_of(*n) {
            Option::Some(p) => match r {
                Option::Some(out) => out@ == p,
                Option::None => false,
            },
            Option::None => match r {
                Option::Some(_) => false,
                Option::None => true,
            },
        },
{
    let b = rslint_parser::ast::BinExpr::cast(n.node.clone())?;
    b.op_details().map(|(t, _)| t.text().to_string())
}

/// Relies on `UnaryExpr::cast` and `UnaryExpr::op_details`: the operator
/// token's text.
#[verifier::external_body]
fn unary_op_text(n: &SyntaxHandle) -> (r: Option<String>)
    ensures
        match unary_op_of(*n) {
            Option::Some(p) => match r {
                Option::Some(out) => out@ == p,
                Option::None => false,
            },
            Option::None => match r {
                Option::Some(_) => false,
                Option::None => true,
            },
        },
{
    let u = rslint_parser::ast::UnaryExpr::cast(n.node.clone())?;
    u.op_details().map(|(t, _)| t.text().to_string())
}

/// Relies on `CallExpr::cast` and `CallExpr::arguments`: the argument-list
/// node, if any.
#[verifier::external_body]
fn call_arg_list(n: &SyntaxHandle) -> (r: Option<SyntaxHandle>)
    ensures
        r == arg_list_of(*n),
{
    let c = rslint_parser::ast::CallExpr::cast(n.node.clone())?;
    c.arguments().map(|a| SyntaxHandle { node: a.syntax().clone() })
}

/// An optional lowered child matches an optional syntax child: absent
/// together, or lowered from it.
pub open spec fn opt_lowers_to(c: Option<SyntaxHandle>, fuel: u64, a: Option<Box<Ast>>) -> bool
    decreases fuel, 1int, 0int,
{
    match c {
        Option::None => a is None,
        Option::Some(cn) => match a {
            Option::Some(b) => lowers_to(cn, fuel, *b),
            Option::None => false,
        },
    }
}

/// Which expression tree the walk over the accessor readings produces for a
/// node, with `fuel` bounding the depth.  The readings are uninterpreted, so
/// this pins the lowered tree exactly, one node kind at a time: two trees
/// satisfying it for one node and fuel agree in every view, differing at
/// most in the identity of equal-viewed strings.
pub open spec fn lowers_to(n: SyntaxHandle, fuel: u64, a: Ast) -> bool
    decreases fuel, 0int, 0int,
{
    if fuel == 0 {
        a == Ast::TooDeep
    } else {
        let f = (fuel - 1) as u64;
        match kind_of(n) {
            NodeKind::ExprStmt => match a {
                Ast::ExprStmt(inner) => opt_lowers_to(first_child_of(n), f, inner),
                _ => false,
            },
            NodeKind::Grouping => match a {
                Ast::Grouping(inner) => opt_lowers_to(expr_child_of(n, 0), f, inner),
                _ => false,
            },
            NodeKind::Name => match a {
                Ast::Name(s) => s@ == text_of(n),
                _ => false,
            },
            NodeKind::Literal => match a {
                Ast::Literal(s) => s@ == text_of(n),
                _ => false,
            },
            NodeKind::Binary => match a {
                Ast::Binary { op, lhs, rhs } => opt_text_matches(bin_op_of(n), op)
                    && opt_lowers_to(expr_child_of(n, 0), f, lhs) && opt_lowers_to(
                    expr_child_of(n, 1),
                    f,
                    rhs,
                ),
                _ => false,
            },
            NodeKind::Unary => match a {
                Ast::Unary { op, operand } => opt_text_matches(unary_op_of(n), op)
                    && opt_lowers_to(expr_child_of(n, 0), f, operand),
                _ => false,
            },
            NodeKind::Conditional => match a {
                Ast::Conditional { test, cons, alt } => opt_lowers_to(expr_child_of(n, 0), f, test)
                    && opt_lowers_to(expr_child_of(n, 1), f, cons) && opt_lowers_to(
                    expr_child_of(n, 2),
                    f,
                    alt,
                ),
                _ => false,
            },
            NodeKind::Dot => match a {
                Ast::Dot { object, prop, text } => opt_lowers_to(expr_child_of(n, 0), f, object)
                    && opt_text_matches(dot_prop_of(n), prop) && text@ == text_of(n),
                _ => false,
            },
            NodeKind::Call => match a {
                Ast::Call { callee, args } => (match expr_child_of(n, 0) {
                    Option::None => callee is None,
                    Option::Some(c) => match callee {
                        Option::Some(pair) => lowers_to(c, f, *pair.0) && pair.1@ == kind_name_of(
                            c,
                        ),
                        Option::None => false,
                    },
                }) && (match arg_list_of(n) {
                    Option::None => args@.len() == 0,
                    Option::Some(al) => args_lower_to(
                        al,
                        child_count_of(al) as int,
                        f,
                        args@,
                    ),
                }),
                _ => false,
            },
            NodeKind::ArrayLit => a == (Ast::ArrayLit { empty: child_count_of(n) == 0 }),
            NodeKind::ObjectLit => a == (Ast::ObjectLit { empty: child_count_of(n) == 0 }),
            NodeKind::Other => match a {
                Ast::Unsupported(k) => k@ == kind_name_of(n),
                _ => false,
            },
        }
    }
}

/// An optional token text matches an optional string.
pub open spec fn opt_text_matches(t: Option<Seq<char>>, s: Option<String>) -> bool {
    match t {
        Option::Some(p) => match s {
            Option::Some(out) => out@ == p,
            Option::None => false,
        },
        Option::None => s is None,
    }
}

/// `s` is the lowering of the argument list's first `i` expression children,
/// in order.
pub open spec fn args_lower_to(al: SyntaxHandle, i: int, fuel: u64, s: Seq<Ast>) -> bool
    decreases fuel, 1int, i,
{
    if i <= 0 {
        s.len() == 0
    } else {
        match expr_child_of(al, (i - 1) as usize) {
            Option::Some(c) => s.len() > 0 && lowers_to(c, fuel, s.last()) && args_lower_to(
                al,
                i - 1,
                fuel,
                s.drop_last(),
            ),
            Option::None => args_lower_to(al, i - 1, fuel, s),
        }
    }
}

/// How much lowering depth a text is allowed: far more than any tree parsed
/// from it can need.
pub open spec fn parse_fuel(len: nat) -> u64 {
    if len < 0xffff_ffff_ffff_0000 {
        (len + 16) as u64
    } else {
        0xffff_ffff_ffff_ffffu64
    }
}

/// Copies an optional child, absent staying absent.
fn lower_opt(c: Option<SyntaxHandle>, fuel: u64) -> (r: Option<Box<Ast>>)
    ensures
        opt_lowers_to(c, fuel, r),
    decreases fuel, 1int,
{
    match c {
        Option::Some(cn) => {
            let a = lower(&cn, fuel);
            proof {
                assert(opt_lowers_to(c, fuel, Option::Some(Box::new(a))));
            }
            Option::Some(Box::new(a))
        },
        Option::None => Option::None,
    }
}

/// Copies one syntax node (and what it reaches) into the evaluator's tree.
/// `fuel` bounds the depth; a subtree past the bound becomes a node whose
/// evaluation reports the depth.
fn lower(n: &SyntaxHandle, fuel: u64) -> (r: Ast)
    ensures
        lowers_to(*n, fuel, r),
    decreases fuel, 0int,
{
    if fuel == 0 {
        return Ast::TooDeep;
    }
    let f = fuel - 1;
    match node_kind(n) {
        NodeKind::ExprStmt => Ast::ExprStmt(lower_opt(first_child(n), f)),
        NodeKind::Grouping => Ast::Grouping(lower_opt(nth_expr_child(n, 0), f)),
        NodeKind::Name => Ast::Name(node_text(n)),
        NodeKind::Literal => Ast::Literal(node_text(n)),
        NodeKind::Binary => Ast::Binary {
            op: bin_op_text(n),
            lhs: lower_opt(nth_expr_child(n, 0), f),
            rhs: lower_opt(nth_expr_child(n, 1), f),
        },
        NodeKind::Unary => Ast::Unary {
            op: unary_op_text(n),
            operand: lower_opt(nth_expr_child(n, 0), f),
        },
        NodeKind::Conditional => Ast::Conditional {
            test: lower_opt(nth_expr_child(n, 0), f),
            cons: lower_opt(nth_expr_child(n, 1), f),
            alt: lower_opt(nth_expr_child(n, 2), f),
        },
        NodeKind::Dot => Ast::Dot {
            object: lower_opt(nth_expr_child(n, 0), f),
            prop: dot_prop_text(n),
            text: node_text(n),
        },
        NodeKind::Call => {
            let callee = match nth_expr_child(n, 0) {
                Option::Some(c) => {
                    let kind_name = node_kind_name(&c);
                    Option::Some((Box::new(lower(&c, f)), kind_name))
                },
                Option::None => Option::None,
            };
            let mut args: Vec<Ast> = Vec::new();
            match call_arg_list(n) {
                Option::Some(al) => {
                    let cnt = child_count(&al);
                    let mut i: usize = 0;
                    while i < cnt
                        invariant
                            f < fuel,
                            cnt == child_count_of(al),
                            i <= cnt,
                            args_lower_to(al, i as int, f, args@),
                        decreases cnt - i,
                    {
                        let ghost old_args = args@;
                        match nth_expr_child(&al, i) {
                            Option::Some(c) => {
                                let arg = lower(&c, f);
                                args.push(arg);
                                proof {
                                    assert(args@.last() == arg);
                                    assert(args@.drop_last() =~= old_args);
                                }
                            },
                            Option::None => {},
                        }
                        i = i + 1;
                    }
                },
                Option::None => {},
            }
            Ast::Call { callee, args }
        },
        NodeKind::ArrayLit => Ast::ArrayLit { empty: child_count(n) == 0 },
        NodeKind::ObjectLit => Ast::ObjectLit { empty: child_count(n) == 0 },
        NodeKind::Other => Ast::Unsupported(node_kind_name(n)),
    }
}

/// Parses program text and copies its first expression into the evaluator's
/// tree; `None` exactly where the parsed program is empty.
pub(crate) fn parse_to_ast(text: &str) -> (r: Option<Ast>)
    ensures
        match first_child_of(root_of(text@)) {
            Option::None => r is None,
            Option::Some(n) => match r {
                Option::Some(a) => lowers_to(n, parse_fuel(text@.len()), a),
                Option::None => false,
            },
        },
{
    let root = parse_program(text);
    match first_child(&root) {
        Option::None => Option::None,
        Option::Some(node) => {
            let len = text.unicode_len();
            let fuel: u64 = if (len as u64) < 0xffff_ffff_ffff_0000u64 {
                (len as u64) + 16
            } else {
                0xffff_ffff_ffff_ffffu64
            };
            proof {
                assert(fuel == parse_fuel(text@.len()));
            }
            Option::Some(lower(&node, fuel))
        },
    }
}

} // verus!
