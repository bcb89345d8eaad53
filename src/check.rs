/// Checking state, typing context and errors.
pub mod tcm;

/// Subtyping, with definitional equality as the base case.
pub mod subtype;

/// Inference, type formation and instance checking.
pub mod expr;

/// Laws that relate inference, checking and subtyping.
pub mod laws;

use crate::ast::{Declaration, Expression, Value};
use crate::check::expr::{
    check, check_declaration, check_infer, checked, declaration_checked, inferred,
};
use crate::check::tcm::{default_state, empty_state, TCM, TCS};
use std::rc::Rc;
use vstd::prelude::*;

verus! {

/// The depth budget that the entry points below give to checking.
pub const DEFAULT_DEPTH: u32 = 400;

/// Checks a whole program: the term against the unit type, from an empty state.
pub fn check_main(expression: Expression) -> (r: TCM<TCS>)
    ensures
        r == checked(0, empty_state(), expression, Value::One, DEFAULT_DEPTH as nat),
{
    check_contextual(default_state(), expression)
}

/// Checks a term against the unit type under an existing state.
pub fn check_contextual(tcs: TCS, expression: Expression) -> (r: TCM<TCS>)
    ensures
        r == checked(0, tcs, expression, Value::One, DEFAULT_DEPTH as nat),
{
    check(0, tcs, &expression, Value::One, DEFAULT_DEPTH)
}

/// Infers the type of a term under an existing state.
pub fn check_infer_contextual(tcs: TCS, expression: Expression) -> (r: TCM<Value>)
    ensures
        r == inferred(0, tcs, expression, DEFAULT_DEPTH as nat),
{
    check_infer(0, tcs, &expression, DEFAULT_DEPTH)
}

/// Checks one declaration from an empty state, and returns the state it makes.
pub fn check_declaration_main(declaration: Declaration) -> (r: TCM<TCS>)
    ensures
        r == declaration_checked(0, empty_state(), declaration, DEFAULT_DEPTH as nat),
{
    check_declaration(0, default_state(), &Rc::new(declaration), DEFAULT_DEPTH)
}

} // verus!
