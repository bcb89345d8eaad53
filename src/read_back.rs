use crate::ast::{Closure, EvalError, Expression, Neutral, Pattern, Telescope, TelescopeRaw, Value, Variants};
use crate::eval::{evaluate, instantiated};
use crate::normal::{NormalExpression, NormalNeutral, NormalTelescope, NormalVariants};
use std::rc::Rc;
use vstd::prelude::*;

verus! {

/// The placeholder value for generated variable `id`.
pub open spec fn generated(id: u32) -> Value {
    Value::Neutral(Neutral::Generated(id))
}

/// A fresh placeholder value tagged `id`.
pub fn generate_value(id: u32) -> (r: Value)
    ensures
        r == generated(id),
{
    Value::Neutral(Neutral::Generated(id))
}

/// The body of closure `c` read back under the generated variable `index`.
pub open spec fn body_normal(c: Closure, index: u32, depth: nat) -> Result<NormalExpression, EvalError>
    decreases depth, 1nat,
{
    if index == u32::MAX {
        Err(EvalError::LimitReached)
    } else {
        match instantiated(c, generated(index), depth) {
            Ok(b) => normal_of(b, (index + 1) as u32, depth),
            Err(x) => Err(x),
        }
    }
}

/// The normal form of `v`, with generated variables numbered from `index`.
pub open spec fn normal_of(v: Value, index: u32, depth: nat) -> Result<NormalExpression, EvalError>
    decreases depth, 0nat,
{
    if depth == 0 {
        Err(EvalError::LimitReached)
    } else {
        let d = (depth - 1) as nat;
        match v {
            Value::Lambda(c) => match body_normal(c, index, d) {
                Ok(b) => Ok(NormalExpression::Lambda(index, Rc::new(b))),
                Err(x) => Err(x),
            },
            Value::Unit => Ok(NormalExpression::Unit),
            Value::One => Ok(NormalExpression::One),
            Value::Type(l) => Ok(NormalExpression::Type(l)),
            Value::Pi(a, c, _) => match normal_of(*a, index, d) {
                Ok(na) => match body_normal(c, index, d) {
                    Ok(b) => Ok(NormalExpression::Pi(Rc::new(na), index, Rc::new(b))),
                    Err(x) => Err(x),
                },
                Err(x) => Err(x),
            },
            Value::Sigma(a, c, _) => match normal_of(*a, index, d) {
                Ok(na) => match body_normal(c, index, d) {
                    Ok(b) => Ok(NormalExpression::Sigma(Rc::new(na), index, Rc::new(b))),
                    Err(x) => Err(x),
                },
                Err(x) => Err(x),
            },
            Value::Pair(a, b) => match normal_of(*a, index, d) {
                Ok(na) => match normal_of(*b, index, d) {
                    Ok(nb) => Ok(NormalExpression::Pair(Rc::new(na), Rc::new(nb))),
                    Err(x) => Err(x),
                },
                Err(x) => Err(x),
            },
            Value::Constructor(name, b) => match normal_of(*b, index, d) {
                Ok(nb) => Ok(NormalExpression::Constructor(name, Rc::new(nb))),
                Err(x) => Err(x),
            },
            Value::Split(b, env) => match telescope_normal(*env, index, d) {
                Ok(t) => Ok(NormalExpression::Split(b, Rc::new(t))),
                Err(x) => Err(x),
            },
            Value::Sum(vs, _) => match variants_normal(vs, index, d) {
                Ok(n) => Ok(NormalExpression::Sum(n)),
                Err(x) => Err(x),
            },
            Value::Neutral(n) => match neutral_normal(n, index, d) {
                Ok(nn) => Ok(NormalExpression::Neutral(nn)),
                Err(x) => Err(x),
            },
        }
    }
}

/// The normal form of a stuck computation.
pub open spec fn neutral_normal(n: Neutral, index: u32, depth: nat) -> Result<NormalNeutral, EvalError>
    decreases depth, 0nat,
{
    if depth == 0 {
        Err(EvalError::LimitReached)
    } else {
        let d = (depth - 1) as nat;
        match n {
            Neutral::Generated(id) => Ok(NormalNeutral::Generated(id)),
            Neutral::Application(f, a) => match neutral_normal(*f, index, d) {
                Ok(nf) => match normal_of(*a, index, d) {
                    Ok(na) => Ok(NormalNeutral::Application(Rc::new(nf), Rc::new(na))),
                    Err(x) => Err(x),
                },
                Err(x) => Err(x),
            },
            Neutral::First(m) => match neutral_normal(*m, index, d) {
                Ok(nm) => Ok(NormalNeutral::First(Rc::new(nm))),
                Err(x) => Err(x),
            },
            Neutral::Second(m) => match neutral_normal(*m, index, d) {
                Ok(nm) => Ok(NormalNeutral::Second(Rc::new(nm))),
                Err(x) => Err(x),
            },
            Neutral::Split(b, env, m) => match telescope_normal(*env, index, d) {
                Ok(t) => match neutral_normal(*m, index, d) {
                    Ok(nm) => Ok(NormalNeutral::Split(b, Rc::new(t), Rc::new(nm))),
                    Err(x) => Err(x),
                },
                Err(x) => Err(x),
            },
        }
    }
}

/// The normal form of an environment: each bound value read back.
pub open spec fn telescope_normal(t: TelescopeRaw, index: u32, depth: nat) -> Result<NormalTelescope, EvalError>
    decreases depth, 0nat,
{
    if depth == 0 {
        Err(EvalError::LimitReached)
    } else {
        let d = (depth - 1) as nat;
        match t {
            TelescopeRaw::Nil => Ok(NormalTelescope::Nil),
            TelescopeRaw::UpDec(rest, decl) => match telescope_normal(*rest, index, d) {
                Ok(nr) => Ok(NormalTelescope::UpDec(Rc::new(nr), decl)),
                Err(x) => Err(x),
            },
            TelescopeRaw::UpVar(rest, p, v) => match telescope_normal(*rest, index, d) {
                Ok(nr) => match normal_of(*v, index, d) {
                    Ok(nv) => Ok(NormalTelescope::UpVar(Rc::new(nr), p, Rc::new(nv))),
                    Err(x) => Err(x),
                },
                Err(x) => Err(x),
            },
        }
    }
}

/// The normal form of the labels of a sum.
pub open spec fn variants_normal(vs: Variants, index: u32, depth: nat) -> Result<NormalVariants, EvalError>
    decreases depth, 0nat,
{
    if depth == 0 {
        Err(EvalError::LimitReached)
    } else {
        let d = (depth - 1) as nat;
        match vs {
            Variants::Closed(b, env) => match telescope_normal(*env, index, d) {
                Ok(t) => Ok(NormalVariants::Closed(b, Rc::new(t))),
                Err(x) => Err(x),
            },
            Variants::Single(name, v) => match normal_of(*v, index, d) {
                Ok(nv) => Ok(NormalVariants::Single(name, Rc::new(nv))),
                Err(x) => Err(x),
            },
            Variants::Merged(l, r) => match variants_normal(*l, index, d) {
                Ok(nl) => match variants_normal(*r, index, d) {
                    Ok(nr) => Ok(NormalVariants::Merged(Rc::new(nl), Rc::new(nr))),
                    Err(x) => Err(x),
                },
                Err(x) => Err(x),
            },
        }
    }
}

/// Structures that read back to a normal form: values, stuck computations,
/// environments and the labels of sums.
pub trait ReadBack: Sized {
    type NormalForm;

    /// The normal form of `self`, with generated variables numbered from `index`.
    spec fn normal_form(&self, index: u32, depth: nat) -> Result<Self::NormalForm, EvalError>;

    /// Reads `self` back to its normal form.
    fn read_back(&self, index: u32, depth: u32) -> (r: Result<Self::NormalForm, EvalError>)
        ensures
            r == self.normal_form(index, depth as nat),
    ;
}

impl ReadBack for Value {
    type NormalForm = NormalExpression;

    open spec fn normal_form(&self, index: u32, depth: nat) -> Result<NormalExpression, EvalError> {
        normal_of(*self, index, depth)
    }

    fn read_back(&self, index: u32, depth: u32) -> (r: Result<NormalExpression, EvalError>) {
        Value::read_back(self, index, depth)
    }
}

impl ReadBack for Neutral {
    type NormalForm = NormalNeutral;

    open spec fn normal_form(&self, index: u32, depth: nat) -> Result<NormalNeutral, EvalError> {
        neutral_normal(*self, index, depth)
    }

    fn read_back(&self, index: u32, depth: u32) -> (r: Result<NormalNeutral, EvalError>) {
        Neutral::read_back(self, index, depth)
    }
}

impl ReadBack for TelescopeRaw {
    type NormalForm = NormalTelescope;

    open spec fn normal_form(&self, index: u32, depth: nat) -> Result<NormalTelescope, EvalError> {
        telescope_normal(*self, index, depth)
    }

    fn read_back(&self, index: u32, depth: u32) -> (r: Result<NormalTelescope, EvalError>) {
        TelescopeRaw::read_back(self, index, depth)
    }
}

impl ReadBack for Variants {
    type NormalForm = NormalVariants;

    open spec fn normal_form(&self, index: u32, depth: nat) -> Result<NormalVariants, EvalError> {
        variants_normal(*self, index, depth)
    }

    fn read_back(&self, index: u32, depth: u32) -> (r: Result<NormalVariants, EvalError>) {
        Variants::read_back(self, index, depth)
    }
}

/// The body of `closure` read back under the generated variable `index`.
fn read_back_body(closure: &Closure, index: u32, depth: u32) -> (r: Result<NormalExpression, EvalError>)
    ensures
        r == body_normal(*closure, index, depth as nat),
    decreases depth, 1nat,
{
    if index == u32::MAX {
        return Err(EvalError::LimitReached);
    }
    match closure.instantiate(generate_value(index), depth) {
        Ok(b) => b.read_back(index + 1, depth),
        Err(x) => Err(x),
    }
}

impl Value {
    /// Reads this value back to its normal form, numbering generated
    /// variables from `index`.
    pub fn read_back(&self, index: u32, depth: u32) -> (r: Result<NormalExpression, EvalError>)
        ensures
            r == normal_of(*self, index, depth as nat),
        decreases depth, 0nat,
    {
        if depth == 0 {
            return Err(EvalError::LimitReached);
        }
        let d = depth - 1;
        match self {
            Value::Lambda(c) => match read_back_body(c, index, d) {
                Ok(b) => Ok(NormalExpression::Lambda(index, Rc::new(b))),
                Err(x) => Err(x),
            },
            Value::Unit => Ok(NormalExpression::Unit),
            Value::One => Ok(NormalExpression::One),
            Value::Type(l) => Ok(NormalExpression::Type(*l)),
            Value::Pi(a, c, _) => {
                let na = match a.read_back(index, d) {
                    Ok(na) => na,
                    Err(x) => return Err(x),
                };
                match read_back_body(c, index, d) {
                    Ok(b) => Ok(NormalExpression::Pi(Rc::new(na), index, Rc::new(b))),
                    Err(x) => Err(x),
                }
            },
            Value::Sigma(a, c, _) => {
                let na = match a.read_back(index, d) {
                    Ok(na) => na,
                    Err(x) => return Err(x),
                };
                match read_back_body(c, index, d) {
                    Ok(b) => Ok(NormalExpression::Sigma(Rc::new(na), index, Rc::new(b))),
                    Err(x) => Err(x),
                }
            },
            Value::Pair(a, b) => {
                let na = match a.read_back(index, d) {
                    Ok(na) => na,
                    Err(x) => return Err(x),
                };
                match b.read_back(index, d) {
                    Ok(nb) => Ok(NormalExpression::Pair(Rc::new(na), Rc::new(nb))),
                    Err(x) => Err(x),
                }
            },
            Value::Constructor(name, b) => match b.read_back(index, d) {
                Ok(nb) => Ok(NormalExpression::Constructor(name.clone(), Rc::new(nb))),
                Err(x) => Err(x),
            },
            Value::Split(b, env) => match env.read_back(index, d) {
                Ok(t) => Ok(NormalExpression::Split(b.clone(), Rc::new(t))),
                Err(x) => Err(x),
            },
            Value::Sum(vs, _) => match vs.read_back(index, d) {
                Ok(n) => Ok(NormalExpression::Sum(n)),
                Err(x) => Err(x),
            },
            Value::Neutral(n) => match n.read_back(index, d) {
                Ok(nn) => Ok(NormalExpression::Neutral(nn)),
                Err(x) => Err(x),
            },
        }
    }
}

impl Neutral {
    /// Reads this stuck computation back to its normal form.
    pub fn read_back(&self, index: u32, depth: u32) -> (r: Result<NormalNeutral, EvalError>)
        ensures
            r == neutral_normal(*self, index, depth as nat),
        decreases depth, 0nat,
    {
        if depth == 0 {
            return Err(EvalError::LimitReached);
        }
        let d = depth - 1;
        match self {
            Neutral::Generated(id) => Ok(NormalNeutral::Generated(*id)),
            Neutral::Application(f, a) => {
                let nf = match f.read_back(index, d) {
                    Ok(nf) => nf,
                    Err(x) => return Err(x),
                };
                match a.read_back(index, d) {
                    Ok(na) => Ok(NormalNeutral::Application(Rc::new(nf), Rc::new(na))),
                    Err(x) => Err(x),
                }
            },
            Neutral::First(m) => match m.read_back(index, d) {
                Ok(nm) => Ok(NormalNeutral::First(Rc::new(nm))),
                Err(x) => Err(x),
            },
            Neutral::Second(m) => match m.read_back(index, d) {
                Ok(nm) => Ok(NormalNeutral::Second(Rc::new(nm))),
                Err(x) => Err(x),
            },
            Neutral::Split(b, env, m) => {
                let t = match env.read_back(index, d) {
                    Ok(t) => t,
                    Err(x) => return Err(x),
                };
                match m.read_back(index, d) {
                    Ok(nm) => Ok(NormalNeutral::Split(b.clone(), Rc::new(t), Rc::new(nm))),
                    Err(x) => Err(x),
                }
            },
        }
    }
}

impl TelescopeRaw {
    /// Reads this environment back: each bound value to its normal form.
    pub fn read_back(&self, index: u32, depth: u32) -> (r: Result<NormalTelescope, EvalError>)
        ensures
            r == telescope_normal(*self, index, depth as nat),
        decreases depth, 0nat,
    {
        if depth == 0 {
            return Err(EvalError::LimitReached);
        }
        let d = depth - 1;
        match self {
            TelescopeRaw::Nil => Ok(NormalTelescope::Nil),
            TelescopeRaw::UpDec(rest, decl) => match rest.read_back(index, d) {
                Ok(nr) => Ok(NormalTelescope::UpDec(Rc::new(nr), decl.clone())),
                Err(x) => Err(x),
            },
            TelescopeRaw::UpVar(rest, p, v) => {
                let nr = match rest.read_back(index, d) {
                    Ok(nr) => nr,
                    Err(x) => return Err(x),
                };
                match v.read_back(index, d) {
                    Ok(nv) => Ok(NormalTelescope::UpVar(Rc::new(nr), p.copy(), Rc::new(nv))),
                    Err(x) => Err(x),
                }
            },
        }
    }
}

impl Variants {
    /// Reads the labels of a sum back to their normal form.
    pub fn read_back(&self, index: u32, depth: u32) -> (r: Result<NormalVariants, EvalError>)
        ensures
            r == variants_normal(*self, index, depth as nat),
        decreases depth, 0nat,
    {
        if depth == 0 {
            return Err(EvalError::LimitReached);
        }
        let d = depth - 1;
        match self {
            Variants::Closed(b, env) => match env.read_back(index, d) {
                Ok(t) => Ok(NormalVariants::Closed(b.clone(), Rc::new(t))),
                Err(x) => Err(x),
            },
            Variants::Single(name, v) => match v.read_back(index, d) {
                Ok(nv) => Ok(NormalVariants::Single(name.clone(), Rc::new(nv))),
                Err(x) => Err(x),
            },
            Variants::Merged(l, r) => {
                let nl = match l.read_back(index, d) {
                    Ok(nl) => nl,
                    Err(x) => return Err(x),
                };
                match r.read_back(index, d) {
                    Ok(nr) => Ok(NormalVariants::Merged(Rc::new(nl), Rc::new(nr))),
                    Err(x) => Err(x),
                }
            },
        }
    }
}

/// Reading back is deterministic: equal values, read back from the same
/// index within the same depth, give equal outcomes.
pub proof fn lemma_read_back_deterministic(v: Value, w: Value, index: u32, depth: nat)
    requires
        v == w,
    ensures
        normal_of(v, index, depth) == normal_of(w, index, depth),
{
}

/// Read-back compares functions by their bodies at one generated variable:
/// two lambdas whose closures give the same outcome there read back to the
/// same outcome, whatever their binder names and environments.
pub proof fn lemma_lambda_read_back_by_body(c1: Closure, c2: Closure, index: u32, depth: nat)
    requires
        depth > 0 ==> instantiated(c1, generated(index), (depth - 1) as nat) == instantiated(
            c2,
            generated(index),
            (depth - 1) as nat,
        ),
    ensures
        normal_of(Value::Lambda(c1), index, depth) == normal_of(Value::Lambda(c2), index, depth),
{
    if depth > 0 {
        let d = (depth - 1) as nat;
        assert(body_normal(c1, index, d) == body_normal(c2, index, d));
    }
}

/// The identity function on the variable `x`.
pub open spec fn identity_term(x: String) -> Expression {
    Expression::Lambda(Pattern::Var(x), None, Rc::new(Expression::Var(x)))
}

/// Alpha-invariance of the identity: `\x. x` and `\y. y`, evaluated under any
/// two environments, read back to the same outcome.
pub proof fn lemma_identity_alpha_invariant(
    x: String,
    y: String,
    ex: Telescope,
    ey: Telescope,
    steps: nat,
    index: u32,
    depth: nat,
)
    requires
        steps > 0,
    ensures
        evaluate(identity_term(x), ex, steps) is Ok,
        evaluate(identity_term(y), ey, steps) is Ok,
        normal_of(evaluate(identity_term(x), ex, steps)->Ok_0, index, depth) == normal_of(
            evaluate(identity_term(y), ey, steps)->Ok_0,
            index,
            depth,
        ),
{
    let cx = Closure::Abstraction(Pattern::Var(x), None, Rc::new(Expression::Var(x)), ex);
    let cy = Closure::Abstraction(Pattern::Var(y), None, Rc::new(Expression::Var(y)), ey);
    assert(evaluate(identity_term(x), ex, steps) == Ok::<Value, EvalError>(Value::Lambda(cx)));
    assert(evaluate(identity_term(y), ey, steps) == Ok::<Value, EvalError>(Value::Lambda(cy)));
    if depth > 0 {
        let d = (depth - 1) as nat;
        if index < u32::MAX && d > 0 {
            let g = generated(index);
            let d2 = (d - 1) as nat;
            let envx = TelescopeRaw::UpVar(ex, Pattern::Var(x), Rc::new(g));
            let envy = TelescopeRaw::UpVar(ey, Pattern::Var(y), Rc::new(g));
            assert(instantiated(cx, g, d) == evaluate(Expression::Var(x), Rc::new(envx), d2));
            assert(instantiated(cy, g, d) == evaluate(Expression::Var(y), Rc::new(envy), d2));
            if d2 > 0 {
                assert(frame_for_identity(envx, x));
                assert(frame_for_identity(envy, y));
                assert(crate::eval::resolved(envx, x, (d2 - 1) as nat) == Ok::<Value, EvalError>(g));
                assert(crate::eval::resolved(envy, y, (d2 - 1) as nat) == Ok::<Value, EvalError>(g));
                assert(evaluate(Expression::Var(x), Rc::new(envx), d2) == Ok::<Value, EvalError>(g));
                assert(evaluate(Expression::Var(y), Rc::new(envy), d2) == Ok::<Value, EvalError>(g));
            }
            assert(instantiated(cx, g, d) == instantiated(cy, g, d));
        }
        assert(body_normal(cx, index, d) == body_normal(cy, index, d));
    }
}

spec fn frame_for_identity(env: TelescopeRaw, x: String) -> bool {
    crate::eval::frame_for(env, x@) == Some(env)
}

} // verus!
