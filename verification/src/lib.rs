//! An embeddable evaluator for a small JavaScript-expression-like language:
//! given a context of JSON-shaped values and a registry of named custom
//! functions, it computes the value of a textual expression such as
//! `a.b.c === 5` or `arr.includes(x)`, reproducing JavaScript's coercion,
//! equality and truthiness rules.

pub mod ast;
pub mod coerce;
pub mod equality;
pub mod errors;
pub mod eval;
pub mod lower;
pub mod numeric;
pub mod semantics;
pub mod text;
pub mod value;

pub use crate::errors::{
    BuiltInMethodKind, CustomFuncError, CustomFunction, EvaluationError, NodeError,
    ResolvableValue,
};
pub use crate::eval::Evaluator;
pub use crate::value::Value;
