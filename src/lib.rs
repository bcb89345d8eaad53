//! A checker and evaluator for a small dependently-typed calculus, with
//! normalisation by evaluation deciding definitional equality.
//!
//! Every recursive step of evaluation, read-back, subtyping and checking
//! consumes one unit of an explicit depth budget; running out is reported as
//! `EvalError::LimitReached` instead of exhausting the stack.

/// Syntax, values, closures and environments.
pub mod ast;

/// Evaluation of syntax to values, with its spec functions.
pub mod eval;

/// Normal forms, and structural sameness of syntax and normal forms.
pub mod normal;

/// Reading values back to normal forms.
pub mod read_back;

/// Type checking: state, subtyping, the bidirectional rules and entry points.
pub mod check;
