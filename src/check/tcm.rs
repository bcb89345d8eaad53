use crate::ast::{EvalError, Expression, Pattern, Telescope, TelescopeRaw, Value};
use crate::eval::{fst, instantiated, pair_like, snd};
use crate::normal::NormalExpression;
use std::rc::Rc;
use vstd::prelude::*;

verus! {

/// One frame of a typing context.
pub enum GammaRaw {
    Nil,
    Cons(Gamma, String, Rc<Value>),
}

/// A typing context: names to their types, innermost first.
pub type Gamma = Rc<GammaRaw>;

/// A list of labels.
pub enum Labels {
    End,
    Label(String, Rc<Labels>),
}

/// The checking state: typing context and environment.
pub struct TCS {
    pub gamma: Gamma,
    pub context: Telescope,
}

/// Why a term was rejected.
pub enum TCE {
    /// A variable with no type in the context.
    UnresolvedName(String),
    /// A pair type was needed; this type was found.
    WantSigmaBut(Value),
    /// A function type was needed for applying to the argument; this type was found.
    WantPiBut(Value, Rc<Expression>),
    /// The term is outside the fragment whose type can be inferred.
    CannotInfer(Expression),
    /// The label is not declared in the sum.
    InvalidConstructor(String),
    /// The sum declares this label and the case split has no branch for it.
    MissingCase(String),
    /// The case split has branches for these labels, which the sum lacks.
    UnexpectedCases(Labels),
    /// The two normal forms differ, and no subtyping rule relates them.
    NotEqual(NormalExpression, NormalExpression),
    /// A form that the grammar does not produce in this position.
    Unreachable,
    /// Evaluation or read-back failed, or the depth limit ran out.
    Evaluation(EvalError),
}

/// Outcome of a checking operation.
pub type TCM<T> = Result<T, TCE>;

impl TCE {
    /// Errors that come from the evaluator or from the depth limit rather
    /// than from a rule of the type system.
    pub open spec fn is_defect(self) -> bool {
        self is Evaluation || self is Unreachable
    }
}

/// The type recorded for `name`, innermost binding first.
pub open spec fn type_of(g: GammaRaw, name: Seq<char>) -> Option<Value>
    decreases g,
{
    match g {
        GammaRaw::Nil => None,
        GammaRaw::Cons(rest, n, t) => {
            if n@ == name {
                Some(*t)
            } else {
                type_of(*rest, name)
            }
        },
    }
}

/// An empty checking state.
pub open spec fn empty_state() -> TCS {
    TCS { gamma: Rc::new(GammaRaw::Nil), context: Rc::new(TelescopeRaw::Nil) }
}

/// The context extended by binding pattern `p`, of type `t`, to the value `v`.
pub open spec fn gamma_updated(g: Gamma, p: Pattern, t: Value, v: Value, depth: nat) -> TCM<Gamma>
    decreases p,
{
    match p {
        Pattern::Var(x) => Ok(Rc::new(GammaRaw::Cons(g, x, Rc::new(t)))),
        Pattern::Pair(p1, p2) => match t {
            Value::Sigma(a, c, _) => {
                if pair_like(v) {
                    match gamma_updated(g, *p1, *a, fst(v), depth) {
                        Ok(g1) => match instantiated(c, fst(v), depth) {
                            Ok(b) => gamma_updated(g1, *p2, b, snd(v), depth),
                            Err(x) => Err(TCE::Evaluation(x)),
                        },
                        Err(e) => Err(e),
                    }
                } else {
                    Err(TCE::Evaluation(EvalError::NotAPair))
                }
            },
            _ => Err(TCE::WantSigmaBut(t)),
        },
        Pattern::Unit => Ok(g),
    }
}

/// An empty checking state.
pub fn default_state() -> (r: TCS)
    ensures
        r == empty_state(),
{
    TCS { gamma: Rc::new(GammaRaw::Nil), context: Rc::new(TelescopeRaw::Nil) }
}

impl TCS {
    /// An exact copy; the context and environment are shared.
    pub fn copy(&self) -> (r: TCS)
        ensures
            r == *self,
    {
        TCS { gamma: self.gamma.clone(), context: self.context.clone() }
    }
}

impl GammaRaw {
    /// The type recorded for `name`.
    pub fn lookup(&self, name: &String) -> (r: Option<Value>)
        ensures
            r == type_of(*self, name@),
        decreases self,
    {
        match self {
            GammaRaw::Nil => None,
            GammaRaw::Cons(rest, n, t) => {
                if *n == *name {
                    Some(t.copy())
                } else {
                    rest.lookup(name)
                }
            },
        }
    }
}

/// Extends `gamma` by binding `pattern`, of type `t`, to the value `v`.
pub fn update_gamma(gamma: Gamma, pattern: &Pattern, t: Value, v: Value, depth: u32) -> (r: TCM<Gamma>)
    ensures
        r == gamma_updated(gamma, *pattern, t, v, depth as nat),
    decreases pattern,
{
    match pattern {
        Pattern::Var(x) => Ok(Rc::new(GammaRaw::Cons(gamma, x.clone(), Rc::new(t)))),
        Pattern::Pair(p1, p2) => match t {
            Value::Sigma(a, c, _) => {
                if v.is_pair_like() {
                    let (first, second) = v.destruct();
                    match update_gamma(gamma, p1, a.copy(), first.copy(), depth) {
                        Ok(g1) => match c.instantiate(first, depth) {
                            Ok(b) => update_gamma(g1, p2, b, second, depth),
                            Err(x) => Err(TCE::Evaluation(x)),
                        },
                        Err(e) => Err(e),
                    }
                } else {
                    Err(TCE::Evaluation(EvalError::NotAPair))
                }
            },
            _ => Err(TCE::WantSigmaBut(t)),
        },
        Pattern::Unit => Ok(gamma),
    }
}

} // verus!
