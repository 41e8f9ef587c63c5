//! The discriminated failure types shared by the whole evaluator, the
//! value-or-bound-method result of property resolution, and the custom
//! function capability trait.

use crate::value::{Value, Vm};
use vstd::prelude::*;

verus! {

/// An error raised by a custom function or a built-in method.
#[derive(Debug)]
pub enum CustomFuncError {
    ArgumentError(String),
    Generic(String),
    ArityError { expected: usize, got: usize },
}

/// The model of a `CustomFuncError`.
pub enum CustomFuncErrorVm {
    Argument(Seq<char>),
    Generic(Seq<char>),
    Arity { expected: int, got: int },
}

impl View for CustomFuncError {
    type V = CustomFuncErrorVm;

    open spec fn view(&self) -> CustomFuncErrorVm {
        match self {
            CustomFuncError::ArgumentError(m) => CustomFuncErrorVm::Argument(m@),
            CustomFuncError::Generic(m) => CustomFuncErrorVm::Generic(m@),
            CustomFuncError::ArityError { expected, got } => CustomFuncErrorVm::Arity {
                expected: *expected as int,
                got: *got as int,
            },
        }
    }
}

/// A structural failure: a malformed or unsupported expression shape,
/// independent of runtime values.
#[derive(Debug)]
pub struct NodeError {
    pub message: String,
}

impl View for NodeError {
    type V = Seq<char>;

    open spec fn view(&self) -> Seq<char> {
        self.message@
    }
}

/// Every way an evaluation can fail: a structural error, an error raised by
/// a custom function or built-in method, or a type error.
#[derive(Debug)]
pub enum EvaluationError {
    Node(NodeError),
    CustomFunction(CustomFuncError),
    TypeError(String),
}

/// The model of an `EvaluationError`.
pub enum ErrVm {
    Node(Seq<char>),
    Custom(CustomFuncErrorVm),
    Type(Seq<char>),
}

impl View for EvaluationError {
    type V = ErrVm;

    open spec fn view(&self) -> ErrVm {
        match self {
            EvaluationError::Node(e) => ErrVm::Node(e@),
            EvaluationError::CustomFunction(e) => ErrVm::Custom(e@),
            EvaluationError::TypeError(m) => ErrVm::Type(m@),
        }
    }
}

/// The closed set of built-in methods a dot expression can resolve to.
#[derive(Debug, PartialEq, Eq, Structural, Clone, Copy)]
pub enum BuiltInMethodKind {
    ArrayIncludes,
    ObjectHasOwnProperty,
}

/// What a dot expression resolves to: either a plain value, or a built-in
/// method bound to the receiver it was resolved on.  A bound method is not a
/// value: consuming it outside a call expression is a type error.
#[derive(Debug)]
pub enum ResolvableValue {
    Json(Value),
    BuiltInMethod { object: Box<Value>, method: BuiltInMethodKind },
}

/// The model of a `ResolvableValue`.
pub enum ResolvableVm {
    Val(Vm),
    Method(Vm, BuiltInMethodKind),
}

impl View for ResolvableValue {
    type V = ResolvableVm;

    open spec fn view(&self) -> ResolvableVm {
        match self {
            ResolvableValue::Json(v) => ResolvableVm::Val(v@),
            ResolvableValue::BuiltInMethod { object, method } => ResolvableVm::Method(
                object@,
                *method,
            ),
        }
    }
}

/// A named capability: a function registered with the evaluator and callable
/// from expressions.  Implementations must be safe to invoke concurrently.
///
/// `response` is the implementation's input-output behaviour: what the
/// function returns, as a mathematical function of the argument models.  It
/// is declared, not defined — each implementation carries its own — and
/// `call` promises to agree with it.  An implementation outside verified
/// code is trusted to keep that promise, the same standing the registry's
/// callables always had.
pub trait CustomFunction: Send + Sync {
    /// What this function returns for the given argument models.  The
    /// default leaves it arbitrary: an implementation outside verified code
    /// keeps it, and its behaviour enters contracts as an unknown function
    /// of the arguments; a verified implementation would override it.
    open spec fn response(&self, args: Seq<Vm>) -> Result<Vm, CustomFuncErrorVm> {
        vstd::pervasive::arbitrary()
    }

    /// Invokes the function on the given arguments; the result is what
    /// `response` gives for their models.
    fn call(&self, args: &[Value]) -> (r: Result<Value, CustomFuncError>)
        ensures
            match self.response(crate::value::vms_of(args@)) {
                Result::Ok(v) => match r {
                    Result::Ok(out) => out@ == v,
                    Result::Err(_) => false,
                },
                Result::Err(e) => match r {
                    Result::Ok(_) => false,
                    Result::Err(err) => err@ == e,
                },
            },
    ;
}

} // verus!

