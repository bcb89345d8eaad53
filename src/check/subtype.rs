use crate::ast::{Branch, Closure, EvalError, Telescope, Value, Variants};
use crate::check::tcm::{TCE, TCM};
use crate::eval::{evaluate, find_label, instantiated, branch_position};
use crate::normal::normal_same;
use crate::read_back::{generate_value, generated, normal_of};
use std::rc::Rc;
use vstd::prelude::*;

verus! {

/// The payload type that the sum `vs` declares for label `name`, if it has one.
pub open spec fn variant_payload(vs: Variants, name: String, depth: nat) -> Option<Result<Value, EvalError>>
    decreases vs,
{
    match vs {
        Variants::Closed(b, env) => match find_label(b@, name@) {
            Some(i) => Some(evaluate(*b@[i].1, env, depth)),
            None => None,
        },
        Variants::Single(n, v) => {
            if n@ == name@ {
                Some(Ok(*v))
            } else {
                None
            }
        },
        Variants::Merged(l, r) => match variant_payload(*l, name, depth) {
            Some(x) => Some(x),
            None => variant_payload(*r, name, depth),
        },
    }
}

/// Definitional equality: both values read back, from `index`, to the same normal form.
pub open spec fn equal_normal(index: u32, a: Value, b: Value, depth: nat) -> TCM<()> {
    match normal_of(a, index, depth) {
        Ok(x) => match normal_of(b, index, depth) {
            Ok(y) => {
                if normal_same(x, y) {
                    Ok(())
                } else {
                    Err(TCE::NotEqual(x, y))
                }
            },
            Err(e) => Err(TCE::Evaluation(e)),
        },
        Err(e) => Err(TCE::Evaluation(e)),
    }
}

/// Whether `sub` may stand where `sup` is expected: definitionally equal
/// types are; otherwise universes are cumulative, functions contravariant in
/// the domain and covariant in the codomain, pairs covariant, and sums by
/// width. When no rule applies, the inequality of normal forms is reported.
pub open spec fn subtyped(index: u32, sub: Value, sup: Value, depth: nat) -> TCM<()>
    decreases depth, 0nat,
{
    if depth == 0 {
        Err(TCE::Evaluation(EvalError::LimitReached))
    } else {
        let d = (depth - 1) as nat;
        match equal_normal(index, sub, sup, d) {
            Ok(_) => Ok(()),
            Err(TCE::NotEqual(x, y)) => match (sub, sup) {
                (Value::Type(a), Value::Type(b)) => {
                    if a <= b {
                        Ok(())
                    } else {
                        Err(TCE::NotEqual(x, y))
                    }
                },
                (Value::Pi(a1, c1, _), Value::Pi(a2, c2, _)) => match subtyped(index, *a2, *a1, d) {
                    Ok(_) => codomain_subtyped(index, c1, c2, d),
                    Err(e) => Err(e),
                },
                (Value::Sigma(a1, c1, _), Value::Sigma(a2, c2, _)) => match subtyped(index, *a1, *a2, d) {
                    Ok(_) => codomain_subtyped(index, c1, c2, d),
                    Err(e) => Err(e),
                },
                (Value::Sum(v1, _), Value::Sum(v2, _)) => variants_subtyped(index, v1, v2, d),
                _ => Err(TCE::NotEqual(x, y)),
            },
            Err(e) => Err(e),
        }
    }
}

/// The two codomains, instantiated at one generated variable, are subtypes.
pub open spec fn codomain_subtyped(index: u32, c1: Closure, c2: Closure, depth: nat) -> TCM<()>
    decreases depth, 1nat,
{
    if index == u32::MAX {
        Err(TCE::Evaluation(EvalError::LimitReached))
    } else {
        match instantiated(c1, generated(index), depth) {
            Ok(t1) => match instantiated(c2, generated(index), depth) {
                Ok(t2) => subtyped((index + 1) as u32, t1, t2, depth),
                Err(x) => Err(TCE::Evaluation(x)),
            },
            Err(x) => Err(TCE::Evaluation(x)),
        }
    }
}

/// Width subtyping of one label: it is declared in `sup`, with a payload
/// type that the given one is a subtype of.
pub open spec fn label_subtyped(index: u32, name: String, payload: Value, sup: Variants, depth: nat) -> TCM<()>
    decreases depth, 1nat,
{
    match variant_payload(sup, name, depth) {
        None => Err(TCE::InvalidConstructor(name)),
        Some(Err(x)) => Err(TCE::Evaluation(x)),
        Some(Ok(t)) => subtyped(index, payload, t, depth),
    }
}

/// Width subtyping of the labels of `b`, from position `i` on.
pub open spec fn branch_subtyped(index: u32, b: Rc<Branch>, env: Telescope, i: int, sup: Variants, depth: nat) -> TCM<()>
    decreases depth, b@.len() - i,
{
    if depth == 0 {
        Err(TCE::Evaluation(EvalError::LimitReached))
    } else if i < 0 || i >= b@.len() {
        Ok(())
    } else {
        let d = (depth - 1) as nat;
        match evaluate(*b@[i].1, env, d) {
            Ok(payload) => match label_subtyped(index, b@[i].0, payload, sup, d) {
                Ok(_) => branch_subtyped(index, b, env, i + 1, sup, depth),
                Err(e) => Err(e),
            },
            Err(x) => Err(TCE::Evaluation(x)),
        }
    }
}

/// Width subtyping of sums: every label of `sub` is in `sup`, with a subtype payload.
pub open spec fn variants_subtyped(index: u32, sub: Variants, sup: Variants, depth: nat) -> TCM<()>
    decreases depth, 0nat,
{
    if depth == 0 {
        Err(TCE::Evaluation(EvalError::LimitReached))
    } else {
        let d = (depth - 1) as nat;
        match sub {
            Variants::Closed(b, env) => branch_subtyped(index, b, env, 0, sup, d),
            Variants::Single(name, v) => label_subtyped(index, name, *v, sup, d),
            Variants::Merged(l, r) => match variants_subtyped(index, *l, sup, d) {
                Ok(_) => variants_subtyped(index, *r, sup, d),
                Err(e) => Err(e),
            },
        }
    }
}

impl Variants {
    /// The payload type declared for label `name`, if any.
    pub fn payload(&self, name: &String, depth: u32) -> (r: Option<Result<Value, EvalError>>)
        ensures
            r == variant_payload(*self, *name, depth as nat),
        decreases self,
    {
        match self {
            Variants::Closed(b, env) => match branch_position(b, name) {
                Some(i) => Some(b[i].1.eval(env.clone(), depth)),
                None => None,
            },
            Variants::Single(n, v) => {
                if *n == *name {
                    Some(Ok(v.copy()))
                } else {
                    None
                }
            },
            Variants::Merged(l, r) => match l.payload(name, depth) {
                Some(x) => Some(x),
                None => r.payload(name, depth),
            },
        }
    }
}

/// Whether `a` and `b` read back, from `index`, to the same normal form.
pub fn eq_normal(index: u32, a: &Value, b: &Value, depth: u32) -> (r: TCM<()>)
    ensures
        r == equal_normal(index, *a, *b, depth as nat),
{
    let x = match a.read_back(index, depth) {
        Ok(x) => x,
        Err(e) => return Err(TCE::Evaluation(e)),
    };
    let y = match b.read_back(index, depth) {
        Ok(y) => y,
        Err(e) => return Err(TCE::Evaluation(e)),
    };
    if x.same_as(&y) {
        Ok(())
    } else {
        Err(TCE::NotEqual(x, y))
    }
}

/// Whether `sub` may stand where `sup` is expected: definitionally equal
/// types are; otherwise universes are cumulative, functions contravariant in
/// the domain and covariant in the codomain, pairs covariant, and sums by width.
pub fn check_subtype(index: u32, sub: &Value, sup: &Value, depth: u32) -> (r: TCM<()>)
    ensures
        r == subtyped(index, *sub, *sup, depth as nat),
    decreases depth, 0nat,
{
    if depth == 0 {
        return Err(TCE::Evaluation(EvalError::LimitReached));
    }
    let d = depth - 1;
    let (x, y) = match eq_normal(index, sub, sup, d) {
        Ok(_) => return Ok(()),
        Err(TCE::NotEqual(x, y)) => (x, y),
        Err(e) => return Err(e),
    };
    match (sub, sup) {
        (Value::Type(a), Value::Type(b)) => {
            if *a <= *b {
                Ok(())
            } else {
                Err(TCE::NotEqual(x, y))
            }
        },
        (Value::Pi(a1, c1, _), Value::Pi(a2, c2, _)) => match check_subtype(index, a2, a1, d) {
            Ok(_) => check_codomain(index, c1, c2, d),
            Err(e) => Err(e),
        },
        (Value::Sigma(a1, c1, _), Value::Sigma(a2, c2, _)) => match check_subtype(index, a1, a2, d) {
            Ok(_) => check_codomain(index, c1, c2, d),
            Err(e) => Err(e),
        },
        (Value::Sum(v1, _), Value::Sum(v2, _)) => check_variants(index, v1, v2, d),
        _ => Err(TCE::NotEqual(x, y)),
    }
}

fn check_codomain(index: u32, c1: &Closure, c2: &Closure, depth: u32) -> (r: TCM<()>)
    ensures
        r == codomain_subtyped(index, *c1, *c2, depth as nat),
    decreases depth, 1nat,
{
    if index == u32::MAX {
        return Err(TCE::Evaluation(EvalError::LimitReached));
    }
    let t1 = match c1.instantiate(generate_value(index), depth) {
        Ok(t) => t,
        Err(x) => return Err(TCE::Evaluation(x)),
    };
    match c2.instantiate(generate_value(index), depth) {
        Ok(t2) => check_subtype(index + 1, &t1, &t2, depth),
        Err(x) => Err(TCE::Evaluation(x)),
    }
}

fn check_label(index: u32, name: &String, payload: &Value, sup: &Variants, depth: u32) -> (r: TCM<()>)
    ensures
        r == label_subtyped(index, *name, *payload, *sup, depth as nat),
    decreases depth, 1nat,
{
    match sup.payload(name, depth) {
        None => Err(TCE::InvalidConstructor(name.clone())),
        Some(Err(x)) => Err(TCE::Evaluation(x)),
        Some(Ok(t)) => check_subtype(index, payload, &t, depth),
    }
}

fn check_branch(index: u32, b: &Rc<Branch>, env: &Telescope, i: usize, sup: &Variants, depth: u32) -> (r: TCM<()>)
    ensures
        r == branch_subtyped(index, *b, *env, i as int, *sup, depth as nat),
    decreases depth, b@.len() - i,
{
    if depth == 0 {
        return Err(TCE::Evaluation(EvalError::LimitReached));
    }
    if i >= b.len() {
        return Ok(());
    }
    let d = depth - 1;
    match b[i].1.eval(env.clone(), d) {
        Ok(payload) => match check_label(index, &b[i].0, &payload, sup, d) {
            Ok(_) => check_branch(index, b, env, i + 1, sup, depth),
            Err(e) => Err(e),
        },
        Err(x) => Err(TCE::Evaluation(x)),
    }
}

fn check_variants(index: u32, sub: &Variants, sup: &Variants, depth: u32) -> (r: TCM<()>)
    ensures
        r == variants_subtyped(index, *sub, *sup, depth as nat),
    decreases depth, 0nat,
{
    if depth == 0 {
        return Err(TCE::Evaluation(EvalError::LimitReached));
    }
    let d = depth - 1;
    match sub {
        Variants::Closed(b, env) => check_branch(index, b, env, 0, sup, d),
        Variants::Single(name, v) => check_label(index, name, v, sup, d),
        Variants::Merged(l, r) => match check_variants(index, l, sup, d) {
            Ok(_) => check_variants(index, r, sup, d),
            Err(e) => Err(e),
        },
    }
}

} // verus!
