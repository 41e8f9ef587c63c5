//! The expression tree the evaluator walks.
//!
//! This is the parser-boundary data model: one variant per node kind the
//! language supports, with each child optional exactly where the parser may
//! leave it out after error recovery.  A missing child, an unsupported
//! operator or an unsupported node kind is not rejected while the tree is
//! built: the evaluator reports it only if evaluation reaches it, so a
//! malformed subtree in an untaken conditional branch never fails.

use vstd::prelude::*;

verus! {

/// One node of the expression tree.
pub enum Ast {
    /// A literal token, carrying its raw text (quotes included).
    Literal(String),
    /// An identifier reference, carrying its name.
    Name(String),
    /// A binary expression; `op` is the operator token's text.
    Binary { op: Option<String>, lhs: Option<Box<Ast>>, rhs: Option<Box<Ast>> },
    /// A unary prefix expression; `op` is the operator token's text.
    Unary { op: Option<String>, operand: Option<Box<Ast>> },
    /// A ternary conditional.
    Conditional { test: Option<Box<Ast>>, cons: Option<Box<Ast>>, alt: Option<Box<Ast>> },
    /// A dot expression; `text` is the source text of the whole expression,
    /// kept for error messages.
    Dot { object: Option<Box<Ast>>, prop: Option<String>, text: String },
    /// A call; beside the callee stands the name of its node kind, kept for
    /// the error message on an unsupported callee.
    Call { callee: Option<(Box<Ast>, String)>, args: Vec<Ast> },
    /// An array literal; only the empty one is supported.
    ArrayLit { empty: bool },
    /// An object literal; only the empty one is supported.
    ObjectLit { empty: bool },
    /// An expression statement wrapping its single expression.
    ExprStmt(Option<Box<Ast>>),
    /// A parenthesized expression.
    Grouping(Option<Box<Ast>>),
    /// A node kind the language does not support, by name.
    Unsupported(String),
    /// A placeholder for a subtree deeper than the lowering bound.
    TooDeep,
}

} // verus!

