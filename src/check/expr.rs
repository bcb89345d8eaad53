use crate::ast::{Branch, Closure, Declaration, EvalError, Expression, Pattern, Telescope, TelescopeRaw, Value, Variants};
use crate::check::subtype::{check_subtype, subtyped, variant_payload};
use crate::check::tcm::{gamma_updated, type_of, update_gamma, Gamma, Labels, TCE, TCM, TCS};
use crate::eval::{branch_position, evaluate, find_label, fst, instantiated, pair_like};
use crate::read_back::{generate_value, generated};
use std::rc::Rc;
use vstd::prelude::*;

verus! {

/// The level that `Type(l)` lives at: `l + 1`, saturating.
pub open spec fn level_above(l: u32) -> u32 {
    if l == u32::MAX {
        l
    } else {
        (l + 1) as u32
    }
}

/// The state extended by binding pattern `p` to the value `v`, whose type
/// context is already `g`.
pub open spec fn extended(g: Gamma, env: Telescope, p: Pattern, v: Value) -> TCS {
    TCS { gamma: g, context: Rc::new(TelescopeRaw::UpVar(env, p, Rc::new(v))) }
}

/// Labels of split branches `s`, from position `i` on, that `sum` does not declare.
pub open spec fn extra_labels(s: Seq<(String, Rc<Expression>)>, sum: Seq<(String, Rc<Expression>)>, i: int) -> Labels
    decreases s.len() - i,
{
    if i < 0 || i >= s.len() {
        Labels::End
    } else if find_label(sum, s[i].0@) is None {
        Labels::Label(s[i].0, Rc::new(extra_labels(s, sum, i + 1)))
    } else {
        extra_labels(s, sum, i + 1)
    }
}

/// The type inferred for `e`.
pub open spec fn inferred(index: u32, tcs: TCS, e: Expression, depth: nat) -> TCM<Value>
    decreases depth, 0nat,
{
    if depth == 0 {
        Err(TCE::Evaluation(EvalError::LimitReached))
    } else {
        let d = (depth - 1) as nat;
        match e {
            Expression::Unit => Ok(Value::One),
            Expression::One => Ok(Value::Type(0)),
            Expression::Void => Ok(Value::Type(0)),
            Expression::Type(l) => Ok(Value::Type(level_above(l))),
            Expression::Var(name) => match type_of(*tcs.gamma, name@) {
                Some(t) => Ok(t),
                None => Err(TCE::UnresolvedName(name)),
            },
            Expression::Constructor(name, body) => match inferred(index, tcs, *body, d) {
                Ok(t) => Ok(Value::Sum(Variants::Single(name, Rc::new(t)), 0)),
                Err(x) => Err(x),
            },
            Expression::Pair(a, b) => match inferred(index, tcs, *a, d) {
                Ok(ta) => match inferred(index, tcs, *b, d) {
                    Ok(tb) => Ok(Value::Sigma(Rc::new(ta), Closure::Value(Rc::new(tb)), 0)),
                    Err(x) => Err(x),
                },
                Err(x) => Err(x),
            },
            Expression::First(p) => match inferred(index, tcs, *p, d) {
                Ok(Value::Sigma(a, _, _)) => Ok(*a),
                Ok(t) => Err(TCE::WantSigmaBut(t)),
                Err(x) => Err(x),
            },
            Expression::Second(p) => match inferred(index, tcs, *p, d) {
                Ok(Value::Sigma(_, c, _)) => match evaluate(*p, tcs.context, d) {
                    Ok(pv) => {
                        if pair_like(pv) {
                            match instantiated(c, fst(pv), d) {
                                Ok(t) => Ok(t),
                                Err(x) => Err(TCE::Evaluation(x)),
                            }
                        } else {
                            Err(TCE::Evaluation(EvalError::NotAPair))
                        }
                    },
                    Err(x) => Err(TCE::Evaluation(x)),
                },
                Ok(t) => Err(TCE::WantSigmaBut(t)),
                Err(x) => Err(x),
            },
            Expression::Sum(b) => match sum_checked(index, tcs, b, 0, d) {
                Ok(_) => Ok(Value::Type(0)),
                Err(x) => Err(x),
            },
            Expression::Pi(p, a, b) => match telescoped(index, tcs, p, *a, *b, d) {
                Ok(_) => Ok(Value::Type(0)),
                Err(x) => Err(x),
            },
            Expression::Sigma(p, a, b) => match telescoped(index, tcs, p, *a, *b, d) {
                Ok(_) => Ok(Value::Type(0)),
                Err(x) => Err(x),
            },
            Expression::Application(f, arg) => match *f {
                Expression::Lambda(p, Some(ann), body) => match type_checked(index, tcs, *ann, d) {
                    Ok(_) => match evaluate(*ann, tcs.context, d) {
                        Ok(t) => match checked(index, tcs, *arg, t, d) {
                            Ok(_) => {
                                if index == u32::MAX {
                                    Err(TCE::Evaluation(EvalError::LimitReached))
                                } else {
                                    match gamma_updated(tcs.gamma, p, t, generated(index), d) {
                                        Ok(g) => inferred(
                                            (index + 1) as u32,
                                            extended(g, tcs.context, p, generated(index)),
                                            *body,
                                            d,
                                        ),
                                        Err(x) => Err(x),
                                    }
                                }
                            },
                            Err(x) => Err(x),
                        },
                        Err(x) => Err(TCE::Evaluation(x)),
                    },
                    Err(x) => Err(x),
                },
                _ => match inferred(index, tcs, *f, d) {
                    Ok(Value::Pi(a, c, _)) => match checked(index, tcs, *arg, *a, d) {
                        Ok(_) => match evaluate(*arg, tcs.context, d) {
                            Ok(av) => match instantiated(c, av, d) {
                                Ok(t) => Ok(t),
                                Err(x) => Err(TCE::Evaluation(x)),
                            },
                            Err(x) => Err(TCE::Evaluation(x)),
                        },
                        Err(x) => Err(x),
                    },
                    Ok(t) => Err(TCE::WantPiBut(t, arg)),
                    Err(x) => Err(x),
                },
            },
            Expression::Declaration(_, _) => Err(TCE::Unreachable),
            Expression::Constant(_, _, _) => Err(TCE::Unreachable),
            _ => Err(TCE::CannotInfer(e)),
        }
    }
}

/// The catch-all rule: infer the type, then require it to be a subtype of `t`.
pub open spec fn fallback_checked(index: u32, tcs: TCS, e: Expression, t: Value, depth: nat) -> TCM<TCS>
    decreases depth, 1nat,
{
    match inferred(index, tcs, e, depth) {
        Ok(it) => match subtyped(index, it, t, depth) {
            Ok(_) => Ok(tcs),
            Err(x) => Err(x),
        },
        Err(x) => Err(x),
    }
}

/// The state after checking `e` against the type `t`.
pub open spec fn checked(index: u32, tcs: TCS, e: Expression, t: Value, depth: nat) -> TCM<TCS>
    decreases depth, 2nat,
{
    if depth == 0 {
        Err(TCE::Evaluation(EvalError::LimitReached))
    } else {
        let d = (depth - 1) as nat;
        match (e, t) {
            (Expression::Unit, Value::One) => Ok(tcs),
            (Expression::One, Value::Type(_)) => Ok(tcs),
            (Expression::Type(l), Value::Type(m)) => {
                if l < m {
                    Ok(tcs)
                } else {
                    fallback_checked(index, tcs, e, t, depth)
                }
            },
            (Expression::Void, _) => Ok(tcs),
            (Expression::Lambda(p, _, body), Value::Pi(a, c, _)) => {
                if index == u32::MAX {
                    Err(TCE::Evaluation(EvalError::LimitReached))
                } else {
                    match gamma_updated(tcs.gamma, p, *a, generated(index), d) {
                        Ok(g) => match instantiated(c, generated(index), d) {
                            Ok(ct) => checked(
                                (index + 1) as u32,
                                extended(g, tcs.context, p, generated(index)),
                                *body,
                                ct,
                                d,
                            ),
                            Err(x) => Err(TCE::Evaluation(x)),
                        },
                        Err(x) => Err(x),
                    }
                }
            },
            (Expression::Pair(a, b), Value::Sigma(ta, c, _)) => match checked(index, tcs, *a, *ta, d) {
                Ok(_) => match evaluate(*a, tcs.context, d) {
                    Ok(av) => match instantiated(c, av, d) {
                        Ok(tb) => checked(index, tcs, *b, tb, d),
                        Err(x) => Err(TCE::Evaluation(x)),
                    },
                    Err(x) => Err(TCE::Evaluation(x)),
                },
                Err(x) => Err(x),
            },
            (Expression::Constructor(name, body), Value::Sum(vs, _)) => match variant_payload(
                vs,
                name,
                d,
            ) {
                None => Err(TCE::InvalidConstructor(name)),
                Some(Err(x)) => Err(TCE::Evaluation(x)),
                Some(Ok(pt)) => checked(index, tcs, *body, pt, d),
            },
            (Expression::Sum(b), Value::Type(_)) => sum_checked(index, tcs, b, 0, d),
            (Expression::Pi(p, a, b), Value::Type(_)) => telescoped(index, tcs, p, *a, *b, d),
            (Expression::Sigma(p, a, b), Value::Type(_)) => telescoped(index, tcs, p, *a, *b, d),
            (Expression::Declaration(decl, rest), _) => match declaration_checked(index, tcs, *decl, d) {
                Ok(next) => checked(index, next, *rest, t, d),
                Err(x) => Err(x),
            },
            (Expression::Constant(p, body, rest), _) => match inferred(index, tcs, *body, d) {
                Ok(sig) => match evaluate(*body, tcs.context, d) {
                    Ok(bv) => match gamma_updated(tcs.gamma, p, sig, bv, d) {
                        Ok(g) => checked(index, extended(g, tcs.context, p, bv), *rest, t, d),
                        Err(x) => Err(x),
                    },
                    Err(x) => Err(TCE::Evaluation(x)),
                },
                Err(x) => Err(x),
            },
            (Expression::Split(b), Value::Pi(dom, c, _)) => match *dom {
                Value::Sum(Variants::Closed(sb, env), _) => split_checked(index, tcs, b, sb, env, c, 0, d),
                _ => fallback_checked(index, tcs, e, t, depth),
            },
            _ => fallback_checked(index, tcs, e, t, depth),
        }
    }
}

/// The state after checking that `e` is a type.
pub open spec fn type_checked(index: u32, tcs: TCS, e: Expression, depth: nat) -> TCM<TCS>
    decreases depth, 3nat,
{
    if depth == 0 {
        Err(TCE::Evaluation(EvalError::LimitReached))
    } else {
        let d = (depth - 1) as nat;
        match e {
            Expression::Sum(b) => sum_checked(index, tcs, b, 0, d),
            Expression::Pi(p, a, b) => telescoped(index, tcs, p, *a, *b, d),
            Expression::Sigma(p, a, b) => telescoped(index, tcs, p, *a, *b, d),
            Expression::Type(_) => Ok(tcs),
            Expression::Void => Ok(tcs),
            Expression::One => Ok(tcs),
            _ => checked(index, tcs, e, Value::Type(u32::MAX), depth),
        }
    }
}

/// The state after checking that every payload of `b`, from position `i` on, is a type.
pub open spec fn sum_checked(index: u32, tcs: TCS, b: Rc<Branch>, i: int, depth: nat) -> TCM<TCS>
    decreases depth, b@.len() - i,
{
    if i < 0 || i >= b@.len() {
        Ok(tcs)
    } else if depth == 0 {
        Err(TCE::Evaluation(EvalError::LimitReached))
    } else {
        match type_checked(index, tcs, *b@[i].1, (depth - 1) as nat) {
            Ok(_) => sum_checked(index, tcs, b, i + 1, depth),
            Err(x) => Err(x),
        }
    }
}

/// The state after checking a function or pair type former: the domain is a
/// type, and so is the codomain with `p` bound to a generated variable.
pub open spec fn telescoped(index: u32, tcs: TCS, p: Pattern, a: Expression, b: Expression, depth: nat) -> TCM<TCS>
    decreases depth, 0nat,
{
    if depth == 0 {
        Err(TCE::Evaluation(EvalError::LimitReached))
    } else {
        let d = (depth - 1) as nat;
        match type_checked(index, tcs, a, d) {
            Ok(_) => match evaluate(a, tcs.context, d) {
                Ok(av) => {
                    if index == u32::MAX {
                        Err(TCE::Evaluation(EvalError::LimitReached))
                    } else {
                        match gamma_updated(tcs.gamma, p, av, generated(index), d) {
                            Ok(g) => type_checked(
                                (index + 1) as u32,
                                extended(g, tcs.context, p, generated(index)),
                                b,
                                d,
                            ),
                            Err(x) => Err(x),
                        }
                    }
                },
                Err(x) => Err(TCE::Evaluation(x)),
            },
            Err(x) => Err(x),
        }
    }
}

/// Exhaustive case analysis: from position `i` of the sum `sb` on, each label
/// has a branch, checked against the payload type and the re-tagged codomain;
/// at the end, no branch has a label that the sum lacks.
pub open spec fn split_checked(
    index: u32,
    tcs: TCS,
    branches: Rc<Branch>,
    sb: Rc<Branch>,
    env: Telescope,
    c: Closure,
    i: int,
    depth: nat,
) -> TCM<TCS>
    decreases depth, sb@.len() - i,
{
    if i < 0 || i >= sb@.len() {
        match extra_labels(branches@, sb@, 0) {
            Labels::End => Ok(tcs),
            extra => Err(TCE::UnexpectedCases(extra)),
        }
    } else if depth == 0 {
        Err(TCE::Evaluation(EvalError::LimitReached))
    } else {
        let d = (depth - 1) as nat;
        let label = sb@[i].0;
        match find_label(branches@, label@) {
            None => Err(TCE::MissingCase(label)),
            Some(j) => match evaluate(*sb@[i].1, env, d) {
                Ok(pt) => match checked(
                    index,
                    tcs,
                    *branches@[j].1,
                    Value::Pi(Rc::new(pt), Closure::Choice(Rc::new(c), label), 0),
                    d,
                ) {
                    Ok(_) => split_checked(index, tcs, branches, sb, env, c, i + 1, depth),
                    Err(x) => Err(x),
                },
                Err(x) => Err(TCE::Evaluation(x)),
            },
        }
    }
}

/// The state after checking a local declaration and adding it.
pub open spec fn declaration_checked(index: u32, tcs: TCS, decl: Declaration, depth: nat) -> TCM<TCS>
    decreases depth, 0nat,
{
    if depth == 0 {
        Err(TCE::Evaluation(EvalError::LimitReached))
    } else {
        let d = (depth - 1) as nat;
        let scope = Rc::new(TelescopeRaw::UpDec(tcs.context, Rc::new(decl)));
        match type_checked(index, tcs, *decl.signature, d) {
            Ok(_) => match evaluate(*decl.signature, tcs.context, d) {
                Ok(sig) => {
                    if !decl.is_recursive {
                        match checked(index, tcs, *decl.body, sig, d) {
                            Ok(_) => match evaluate(*decl.body, tcs.context, d) {
                                Ok(v) => match gamma_updated(tcs.gamma, decl.pattern, sig, v, d) {
                                    Ok(g) => Ok(TCS { gamma: g, context: scope }),
                                    Err(x) => Err(x),
                                },
                                Err(x) => Err(TCE::Evaluation(x)),
                            },
                            Err(x) => Err(x),
                        }
                    } else if index == u32::MAX {
                        Err(TCE::Evaluation(EvalError::LimitReached))
                    } else {
                        match gamma_updated(tcs.gamma, decl.pattern, sig, generated(index), d) {
                            Ok(g1) => match checked(
                                (index + 1) as u32,
                                extended(g1, tcs.context, decl.pattern, generated(index)),
                                *decl.body,
                                sig,
                                d,
                            ) {
                                Ok(_) => match evaluate(*decl.body, scope, d) {
                                    Ok(v) => match gamma_updated(tcs.gamma, decl.pattern, sig, v, d) {
                                        Ok(g) => Ok(TCS { gamma: g, context: scope }),
                                        Err(x) => Err(x),
                                    },
                                    Err(x) => Err(TCE::Evaluation(x)),
                                },
                                Err(x) => Err(x),
                            },
                            Err(x) => Err(x),
                        }
                    }
                },
                Err(x) => Err(TCE::Evaluation(x)),
            },
            Err(x) => Err(x),
        }
    }
}

fn unexpected_labels(s: &Branch, sum: &Branch, i: usize) -> (r: Labels)
    ensures
        r == extra_labels(s@, sum@, i as int),
    decreases s@.len() - i,
{
    if i >= s.len() {
        return Labels::End;
    }
    let rest = unexpected_labels(s, sum, i + 1);
    match branch_position(sum, &s[i].0) {
        None => Labels::Label(s[i].0.clone(), Rc::new(rest)),
        Some(_) => rest,
    }
}

/// Infers the type of `expression`.
pub fn check_infer(index: u32, tcs: TCS, expression: &Expression, depth: u32) -> (r: TCM<Value>)
    ensures
        r == inferred(index, tcs, *expression, depth as nat),
    decreases depth, 0nat,
{
    if depth == 0 {
        return Err(TCE::Evaluation(EvalError::LimitReached));
    }
    let d = depth - 1;
    match expression {
        Expression::Unit => Ok(Value::One),
        Expression::One => Ok(Value::Type(0)),
        Expression::Void => Ok(Value::Type(0)),
        Expression::Type(l) => Ok(Value::Type(if *l == u32::MAX { *l } else { *l + 1 })),
        Expression::Var(name) => match tcs.gamma.lookup(name) {
            Some(t) => Ok(t),
            None => Err(TCE::UnresolvedName(name.clone())),
        },
        Expression::Constructor(name, body) => match check_infer(index, tcs, body, d) {
            Ok(t) => Ok(Value::Sum(Variants::Single(name.clone(), Rc::new(t)), 0)),
            Err(x) => Err(x),
        },
        Expression::Pair(a, b) => {
            let ta = match check_infer(index, tcs.copy(), a, d) {
                Ok(t) => t,
                Err(x) => return Err(x),
            };
            match check_infer(index, tcs, b, d) {
                Ok(tb) => Ok(Value::Sigma(Rc::new(ta), Closure::Value(Rc::new(tb)), 0)),
                Err(x) => Err(x),
            }
        },
        Expression::First(p) => match check_infer(index, tcs, p, d) {
            Ok(Value::Sigma(a, _, _)) => Ok(a.copy()),
            Ok(t) => Err(TCE::WantSigmaBut(t)),
            Err(x) => Err(x),
        },
        Expression::Second(p) => {
            let context = tcs.context.clone();
            match check_infer(index, tcs, p, d) {
                Ok(Value::Sigma(_, c, _)) => match p.eval(context, d) {
                    Ok(pv) => {
                        if pv.is_pair_like() {
                            match c.instantiate(pv.first(), d) {
                                Ok(t) => Ok(t),
                                Err(x) => Err(TCE::Evaluation(x)),
                            }
                        } else {
                            Err(TCE::Evaluation(EvalError::NotAPair))
                        }
                    },
                    Err(x) => Err(TCE::Evaluation(x)),
                },
                Ok(t) => Err(TCE::WantSigmaBut(t)),
                Err(x) => Err(x),
            }
        },
        Expression::Sum(b) => match check_sum_from(index, tcs, b, 0, d) {
            Ok(_) => Ok(Value::Type(0)),
            Err(x) => Err(x),
        },
        Expression::Pi(p, a, b) => match check_telescoped(index, tcs, p, a, b, d) {
            Ok(_) => Ok(Value::Type(0)),
            Err(x) => Err(x),
        },
        Expression::Sigma(p, a, b) => match check_telescoped(index, tcs, p, a, b, d) {
            Ok(_) => Ok(Value::Type(0)),
            Err(x) => Err(x),
        },
        Expression::Application(f, arg) => match &**f {
            Expression::Lambda(p, Some(ann), body) => {
                match check_type(index, tcs.copy(), ann, d) {
                    Ok(_) => {},
                    Err(x) => return Err(x),
                }
                let t = match ann.eval(tcs.context.clone(), d) {
                    Ok(t) => t,
                    Err(x) => return Err(TCE::Evaluation(x)),
                };
                match check(index, tcs.copy(), arg, t.copy(), d) {
                    Ok(_) => {},
                    Err(x) => return Err(x),
                }
                if index == u32::MAX {
                    return Err(TCE::Evaluation(EvalError::LimitReached));
                }
                match update_gamma(tcs.gamma, p, t, generate_value(index), d) {
                    Ok(g) => {
                        let context = Rc::new(TelescopeRaw::UpVar(tcs.context, p.copy(), Rc::new(generate_value(index))));
                        check_infer(index + 1, TCS { gamma: g, context }, body, d)
                    },
                    Err(x) => Err(x),
                }
            },
            _ => match check_infer(index, tcs.copy(), f, d) {
                Ok(Value::Pi(a, c, _)) => {
                    match check(index, tcs.copy(), arg, a.copy(), d) {
                        Ok(_) => {},
                        Err(x) => return Err(x),
                    }
                    match arg.eval(tcs.context, d) {
                        Ok(av) => match c.instantiate(av, d) {
                            Ok(t) => Ok(t),
                            Err(x) => Err(TCE::Evaluation(x)),
                        },
                        Err(x) => Err(TCE::Evaluation(x)),
                    }
                },
                Ok(t) => Err(TCE::WantPiBut(t, arg.clone())),
                Err(x) => Err(x),
            },
        },
        Expression::Declaration(_, _) => Err(TCE::Unreachable),
        Expression::Constant(_, _, _) => Err(TCE::Unreachable),
        _ => Err(TCE::CannotInfer(expression.copy())),
    }
}

/// The catch-all rule of instance checking: infer, then compare by subtyping.
fn check_fallback(index: u32, tcs: TCS, body: &Expression, signature: &Value, depth: u32) -> (r: TCM<TCS>)
    ensures
        r == fallback_checked(index, tcs, *body, *signature, depth as nat),
    decreases depth, 1nat,
{
    match check_infer(index, tcs.copy(), body, depth) {
        Ok(inferred) => match check_subtype(index, &inferred, signature, depth) {
            Ok(_) => Ok(tcs),
            Err(x) => Err(x),
        },
        Err(x) => Err(x),
    }
}

/// Checks `expression` against the type `value`; on success, returns the state
/// as the rules leave it.
pub fn check(index: u32, tcs: TCS, expression: &Expression, value: Value, depth: u32) -> (r: TCM<TCS>)
    ensures
        r == checked(index, tcs, *expression, value, depth as nat),
    decreases depth, 2nat,
{
    if depth == 0 {
        return Err(TCE::Evaluation(EvalError::LimitReached));
    }
    let d = depth - 1;
    match (expression, &value) {
        (Expression::Unit, Value::One) => Ok(tcs),
        (Expression::One, Value::Type(_)) => Ok(tcs),
        (Expression::Type(l), Value::Type(m)) => {
            if *l < *m {
                Ok(tcs)
            } else {
                check_fallback(index, tcs, expression, &value, depth)
            }
        },
        (Expression::Void, _) => Ok(tcs),
        (Expression::Lambda(p, _, body), Value::Pi(a, c, _)) => {
            if index == u32::MAX {
                return Err(TCE::Evaluation(EvalError::LimitReached));
            }
            match update_gamma(tcs.gamma, p, a.copy(), generate_value(index), d) {
                Ok(g) => match c.instantiate(generate_value(index), d) {
                    Ok(ct) => {
                        let context = Rc::new(TelescopeRaw::UpVar(tcs.context, p.copy(), Rc::new(generate_value(index))));
                        check(index + 1, TCS { gamma: g, context }, body, ct, d)
                    },
                    Err(x) => Err(TCE::Evaluation(x)),
                },
                Err(x) => Err(x),
            }
        },
        (Expression::Pair(a, b), Value::Sigma(ta, c, _)) => {
            match check(index, tcs.copy(), a, ta.copy(), d) {
                Ok(_) => {},
                Err(x) => return Err(x),
            }
            match a.eval(tcs.context.clone(), d) {
                Ok(av) => match c.instantiate(av, d) {
                    Ok(tb) => check(index, tcs, b, tb, d),
                    Err(x) => Err(TCE::Evaluation(x)),
                },
                Err(x) => Err(TCE::Evaluation(x)),
            }
        },
        (Expression::Constructor(name, body), Value::Sum(vs, _)) => match vs.payload(name, d) {
            None => Err(TCE::InvalidConstructor(name.clone())),
            Some(Err(x)) => Err(TCE::Evaluation(x)),
            Some(Ok(pt)) => check(index, tcs, body, pt, d),
        },
        (Expression::Sum(b), Value::Type(_)) => check_sum_from(index, tcs, b, 0, d),
        (Expression::Pi(p, a, b), Value::Type(_)) => check_telescoped(index, tcs, p, a, b, d),
        (Expression::Sigma(p, a, b), Value::Type(_)) => check_telescoped(index, tcs, p, a, b, d),
        (Expression::Declaration(decl, rest), _) => match check_declaration(index, tcs, decl, d) {
            Ok(next) => check(index, next, rest, value, d),
            Err(x) => Err(x),
        },
        (Expression::Constant(p, body, rest), _) => {
            let signature = match check_infer(index, tcs.copy(), body, d) {
                Ok(t) => t,
                Err(x) => return Err(x),
            };
            let body_val = match body.eval(tcs.context.clone(), d) {
                Ok(v) => v,
                Err(x) => return Err(TCE::Evaluation(x)),
            };
            match update_gamma(tcs.gamma, p, signature, body_val.copy(), d) {
                Ok(g) => {
                    let context = Rc::new(TelescopeRaw::UpVar(tcs.context, p.copy(), Rc::new(body_val)));
                    check(index, TCS { gamma: g, context }, rest, value, d)
                },
                Err(x) => Err(x),
            }
        },
        (Expression::Split(b), Value::Pi(dom, c, _)) => match &**dom {
            Value::Sum(Variants::Closed(sb, env), _) => check_split_from(index, tcs, b, sb, env, c, 0, d),
            _ => check_fallback(index, tcs, expression, &value, depth),
        },
        _ => check_fallback(index, tcs, expression, &value, depth),
    }
}

/// Checks that `expression` is a type.
pub fn check_type(index: u32, tcs: TCS, expression: &Expression, depth: u32) -> (r: TCM<TCS>)
    ensures
        r == type_checked(index, tcs, *expression, depth as nat),
    decreases depth, 3nat,
{
    if depth == 0 {
        return Err(TCE::Evaluation(EvalError::LimitReached));
    }
    let d = depth - 1;
    match expression {
        Expression::Sum(b) => check_sum_from(index, tcs, b, 0, d),
        Expression::Pi(p, a, b) => check_telescoped(index, tcs, p, a, b, d),
        Expression::Sigma(p, a, b) => check_telescoped(index, tcs, p, a, b, d),
        Expression::Type(_) => Ok(tcs),
        Expression::Void => Ok(tcs),
        Expression::One => Ok(tcs),
        _ => check(index, tcs, expression, Value::Type(u32::MAX), depth),
    }
}

fn check_sum_from(index: u32, tcs: TCS, constructors: &Rc<Branch>, i: usize, depth: u32) -> (r: TCM<TCS>)
    ensures
        r == sum_checked(index, tcs, *constructors, i as int, depth as nat),
    decreases depth, constructors@.len() - i,
{
    if i >= constructors.len() {
        return Ok(tcs);
    }
    if depth == 0 {
        return Err(TCE::Evaluation(EvalError::LimitReached));
    }
    match check_type(index, tcs.copy(), &constructors[i].1, depth - 1) {
        Ok(_) => check_sum_from(index, tcs, constructors, i + 1, depth),
        Err(x) => Err(x),
    }
}

/// Checks that every payload of a sum type former is a type.
pub fn check_sum_type(index: u32, tcs: TCS, constructors: &Rc<Branch>, depth: u32) -> (r: TCM<TCS>)
    ensures
        r == sum_checked(index, tcs, *constructors, 0, depth as nat),
{
    check_sum_from(index, tcs, constructors, 0, depth)
}

/// Checks a function or pair type former: the domain is a type, and so is the
/// codomain with `pattern` bound to a generated variable of the domain type.
pub fn check_telescoped(
    index: u32,
    tcs: TCS,
    pattern: &Pattern,
    first: &Expression,
    second: &Expression,
    depth: u32,
) -> (r: TCM<TCS>)
    ensures
        r == telescoped(index, tcs, *pattern, *first, *second, depth as nat),
    decreases depth, 0nat,
{
    if depth == 0 {
        return Err(TCE::Evaluation(EvalError::LimitReached));
    }
    let d = depth - 1;
    match check_type(index, tcs.copy(), first, d) {
        Ok(_) => {},
        Err(x) => return Err(x),
    }
    let domain = match first.eval(tcs.context.clone(), d) {
        Ok(v) => v,
        Err(x) => return Err(TCE::Evaluation(x)),
    };
    if index == u32::MAX {
        return Err(TCE::Evaluation(EvalError::LimitReached));
    }
    match update_gamma(tcs.gamma, pattern, domain, generate_value(index), d) {
        Ok(g) => {
            let context = Rc::new(TelescopeRaw::UpVar(tcs.context, pattern.copy(), Rc::new(generate_value(index))));
            check_type(index + 1, TCS { gamma: g, context }, second, d)
        },
        Err(x) => Err(x),
    }
}

fn check_split_from(
    index: u32,
    tcs: TCS,
    branches: &Rc<Branch>,
    sb: &Rc<Branch>,
    env: &Telescope,
    c: &Closure,
    i: usize,
    depth: u32,
) -> (r: TCM<TCS>)
    ensures
        r == split_checked(index, tcs, *branches, *sb, *env, *c, i as int, depth as nat),
    decreases depth, sb@.len() - i,
{
    if i >= sb.len() {
        return match unexpected_labels(branches, sb, 0) {
            Labels::End => Ok(tcs),
            extra => Err(TCE::UnexpectedCases(extra)),
        };
    }
    if depth == 0 {
        return Err(TCE::Evaluation(EvalError::LimitReached));
    }
    let d = depth - 1;
    let label = &sb[i].0;
    match branch_position(branches, label) {
        None => Err(TCE::MissingCase(label.clone())),
        Some(j) => match sb[i].1.eval(env.clone(), d) {
            Ok(pt) => {
                let expected = Value::Pi(Rc::new(pt), Closure::Choice(Rc::new(c.copy()), label.clone()), 0);
                match check(index, tcs.copy(), &branches[j].1, expected, d) {
                    Ok(_) => check_split_from(index, tcs, branches, sb, env, c, i + 1, depth),
                    Err(x) => Err(x),
                }
            },
            Err(x) => Err(TCE::Evaluation(x)),
        },
    }
}

/// Checks a local declaration and returns the state extended by it.
pub fn check_declaration(index: u32, tcs: TCS, decl: &Rc<Declaration>, depth: u32) -> (r: TCM<TCS>)
    ensures
        r == declaration_checked(index, tcs, **decl, depth as nat),
    decreases depth, 0nat,
{
    if depth == 0 {
        return Err(TCE::Evaluation(EvalError::LimitReached));
    }
    let d = depth - 1;
    let scope = Rc::new(TelescopeRaw::UpDec(tcs.context.clone(), decl.clone()));
    match check_type(index, tcs.copy(), &decl.signature, d) {
        Ok(_) => {},
        Err(x) => return Err(x),
    }
    let signature = match decl.signature.eval(tcs.context.clone(), d) {
        Ok(v) => v,
        Err(x) => return Err(TCE::Evaluation(x)),
    };
    if !decl.is_recursive {
        match check(index, tcs.copy(), &decl.body, signature.copy(), d) {
            Ok(_) => {},
            Err(x) => return Err(x),
        }
        match decl.body.eval(tcs.context.clone(), d) {
            Ok(v) => match update_gamma(tcs.gamma, &decl.pattern, signature, v, d) {
                Ok(g) => Ok(TCS { gamma: g, context: scope }),
                Err(x) => Err(x),
            },
            Err(x) => Err(TCE::Evaluation(x)),
        }
    } else {
        if index == u32::MAX {
            return Err(TCE::Evaluation(EvalError::LimitReached));
        }
        let g1 = match update_gamma(tcs.gamma.clone(), &decl.pattern, signature.copy(), generate_value(index), d) {
            Ok(g) => g,
            Err(x) => return Err(x),
        };
        let context = Rc::new(TelescopeRaw::UpVar(tcs.context.clone(), decl.pattern.copy(), Rc::new(generate_value(index))));
        match check(index + 1, TCS { gamma: g1, context }, &decl.body, signature.copy(), d) {
            Ok(_) => {},
            Err(x) => return Err(x),
        }
        match decl.body.eval(scope.clone(), d) {
            Ok(v) => match update_gamma(tcs.gamma, &decl.pattern, signature, v, d) {
                Ok(g) => Ok(TCS { gamma: g, context: scope }),
                Err(x) => Err(x),
            },
            Err(x) => Err(TCE::Evaluation(x)),
        }
    }
}

} // verus!
