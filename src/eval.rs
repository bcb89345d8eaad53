use crate::ast::{
    Branch, Closure, Declaration, EvalError, Expression, MaybeLevel, Neutral, Pattern, Telescope,
    TelescopeRaw, Value, Variants,
};
use std::rc::Rc;
use vstd::prelude::*;

verus! {

/// Whether `name` is bound by one of the pattern's variables.
pub open spec fn binds(p: Pattern, name: Seq<char>) -> bool
    decreases p,
{
    match p {
        Pattern::Var(n) => n@ == name,
        Pattern::Pair(a, b) => binds(*a, name) || binds(*b, name),
        Pattern::Unit => false,
    }
}

/// Values that a projection can be applied to.
pub open spec fn pair_like(v: Value) -> bool {
    v is Pair || v is Neutral
}

/// The first projection of a pair-like value.
pub open spec fn fst(v: Value) -> Value {
    match v {
        Value::Pair(a, _) => *a,
        Value::Neutral(n) => Value::Neutral(Neutral::First(Rc::new(n))),
        _ => v,
    }
}

/// The second projection of a pair-like value.
pub open spec fn snd(v: Value) -> Value {
    match v {
        Value::Pair(_, b) => *b,
        Value::Neutral(n) => Value::Neutral(Neutral::Second(Rc::new(n))),
        _ => v,
    }
}

/// The part of `v` that the variable `name` of pattern `p` stands for.
pub open spec fn projected(p: Pattern, name: String, v: Value) -> Result<Value, EvalError>
    decreases p,
{
    match p {
        Pattern::Pair(a, b) => {
            if binds(*a, name@) {
                if pair_like(v) {
                    projected(*a, name, fst(v))
                } else {
                    Err(EvalError::NotAPair)
                }
            } else if binds(*b, name@) {
                if pair_like(v) {
                    projected(*b, name, snd(v))
                } else {
                    Err(EvalError::NotAPair)
                }
            } else {
                Err(EvalError::Unresolved(name))
            }
        },
        Pattern::Var(n) => {
            if n@ == name@ {
                Ok(v)
            } else {
                Err(EvalError::Unresolved(name))
            }
        },
        Pattern::Unit => Err(EvalError::Unresolved(name)),
    }
}

/// The innermost frame of `env` that binds `name`.
pub open spec fn frame_for(env: TelescopeRaw, name: Seq<char>) -> Option<TelescopeRaw>
    decreases env,
{
    match env {
        TelescopeRaw::Nil => None,
        TelescopeRaw::UpDec(ctx, d) => {
            if binds(d.pattern, name) {
                Some(env)
            } else {
                frame_for(*ctx, name)
            }
        },
        TelescopeRaw::UpVar(ctx, p, _) => {
            if binds(p, name) {
                Some(env)
            } else {
                frame_for(*ctx, name)
            }
        },
    }
}

/// The position of the first entry labelled `name`, from position `i` on.
pub open spec fn label_index(s: Seq<(String, Rc<Expression>)>, name: Seq<char>, i: int) -> Option<int>
    decreases s.len() - i,
{
    if i < 0 || i >= s.len() {
        None
    } else if s[i].0@ == name {
        Some(i)
    } else {
        label_index(s, name, i + 1)
    }
}

/// The first entry of `s` labelled `name`.
pub open spec fn find_label(s: Seq<(String, Rc<Expression>)>, name: Seq<char>) -> Option<int> {
    label_index(s, name, 0)
}

/// The value of `name` in `env`.
pub open spec fn resolved(env: TelescopeRaw, name: String, depth: nat) -> Result<Value, EvalError>
    decreases depth, 1nat,
{
    match frame_for(env, name@) {
        Some(TelescopeRaw::UpDec(ctx, d)) => {
            let scope = if d.is_recursive {
                Rc::new(TelescopeRaw::UpDec(ctx, d))
            } else {
                ctx
            };
            match evaluate(*d.body, scope, depth) {
                Ok(v) => projected(d.pattern, name, v),
                Err(e) => Err(e),
            }
        },
        Some(TelescopeRaw::UpVar(_, p, v)) => projected(p, name, *v),
        _ => Err(EvalError::Unresolved(name)),
    }
}

/// What evaluating `e` under `env` gives, within `depth` nested steps.
pub open spec fn evaluate(e: Expression, env: Telescope, depth: nat) -> Result<Value, EvalError>
    decreases depth, 0nat,
{
    if depth == 0 {
        Err(EvalError::LimitReached)
    } else {
        let d = (depth - 1) as nat;
        match e {
            Expression::Unit => Ok(Value::Unit),
            Expression::One => Ok(Value::One),
            Expression::Type(level) => Ok(Value::Type(level)),
            Expression::Void => Err(EvalError::NoValue),
            Expression::Var(name) => resolved(*env, name, d),
            Expression::Sum(b) => Ok(Value::Sum(Variants::Closed(b, env), 0)),
            Expression::Merge(l, r) => match evaluate(*l, env, d) {
                Ok(lv) => match evaluate(*r, env, d) {
                    Ok(rv) => match (lv, rv) {
                        (Value::Sum(a, la), Value::Sum(b, lb)) => Ok(
                            Value::Sum(
                                Variants::Merged(Rc::new(a), Rc::new(b)),
                                if la >= lb { la } else { lb },
                            ),
                        ),
                        _ => Err(EvalError::NotASum),
                    },
                    Err(x) => Err(x),
                },
                Err(x) => Err(x),
            },
            Expression::Split(b) => Ok(Value::Split(b, env)),
            Expression::Pi(p, a, b) => match evaluate(*a, env, d) {
                Ok(av) => Ok(
                    Value::Pi(Rc::new(av), Closure::Abstraction(p, Some(Rc::new(av)), b, env), 0),
                ),
                Err(x) => Err(x),
            },
            Expression::Sigma(p, a, b) => match evaluate(*a, env, d) {
                Ok(av) => Ok(
                    Value::Sigma(Rc::new(av), Closure::Abstraction(p, Some(Rc::new(av)), b, env), 0),
                ),
                Err(x) => Err(x),
            },
            Expression::Lambda(p, _, body) => Ok(
                Value::Lambda(Closure::Abstraction(p, None, body, env)),
            ),
            Expression::Application(f, a) => match evaluate(*f, env, d) {
                Ok(fv) => match evaluate(*a, env, d) {
                    Ok(av) => applied(fv, av, d),
                    Err(x) => Err(x),
                },
                Err(x) => Err(x),
            },
            Expression::Pair(a, b) => match evaluate(*a, env, d) {
                Ok(av) => match evaluate(*b, env, d) {
                    Ok(bv) => Ok(Value::Pair(Rc::new(av), Rc::new(bv))),
                    Err(x) => Err(x),
                },
                Err(x) => Err(x),
            },
            Expression::First(p) => match evaluate(*p, env, d) {
                Ok(v) => if pair_like(v) {
                    Ok(fst(v))
                } else {
                    Err(EvalError::NotAPair)
                },
                Err(x) => Err(x),
            },
            Expression::Second(p) => match evaluate(*p, env, d) {
                Ok(v) => if pair_like(v) {
                    Ok(snd(v))
                } else {
                    Err(EvalError::NotAPair)
                },
                Err(x) => Err(x),
            },
            Expression::Constructor(name, body) => match evaluate(*body, env, d) {
                Ok(v) => Ok(Value::Constructor(name, Rc::new(v))),
                Err(x) => Err(x),
            },
            Expression::Declaration(decl, rest) => evaluate(
                *rest,
                Rc::new(TelescopeRaw::UpDec(env, decl)),
                d,
            ),
            Expression::Constant(p, e1, rest) => match evaluate(*e1, env, d) {
                Ok(v) => evaluate(*rest, Rc::new(TelescopeRaw::UpVar(env, p, Rc::new(v))), d),
                Err(x) => Err(x),
            },
        }
    }
}

/// The closure's body with its binder taken to be `v`.
pub open spec fn instantiated(c: Closure, v: Value, depth: nat) -> Result<Value, EvalError>
    decreases depth, 0nat,
{
    if depth == 0 {
        Err(EvalError::LimitReached)
    } else {
        let d = (depth - 1) as nat;
        match c {
            Closure::Abstraction(p, _, body, env) => evaluate(
                *body,
                Rc::new(TelescopeRaw::UpVar(env, p, Rc::new(v))),
                d,
            ),
            Closure::Value(w) => Ok(*w),
            Closure::Choice(inner, label) => instantiated(
                *inner,
                Value::Constructor(label, Rc::new(v)),
                d,
            ),
        }
    }
}

/// The result of applying `f` to `a`.
pub open spec fn applied(f: Value, a: Value, depth: nat) -> Result<Value, EvalError>
    decreases depth, 0nat,
{
    if depth == 0 {
        Err(EvalError::LimitReached)
    } else {
        let d = (depth - 1) as nat;
        match f {
            Value::Lambda(c) => instantiated(c, a, d),
            Value::Split(b, env) => match a {
                Value::Constructor(name, payload) => match find_label(b@, name@) {
                    Some(i) => match evaluate(*b@[i].1, env, d) {
                        Ok(branch) => applied(branch, *payload, d),
                        Err(x) => Err(x),
                    },
                    None => Err(EvalError::MissingBranch(name)),
                },
                Value::Neutral(n) => Ok(Value::Neutral(Neutral::Split(b, env, Rc::new(n)))),
                _ => Err(EvalError::NotASum),
            },
            Value::Neutral(n) => Ok(Value::Neutral(Neutral::Application(Rc::new(n), Rc::new(a)))),
            _ => Err(EvalError::NotAFunction),
        }
    }
}

/// The universe level of a type value; `Type(l)` lives at `l + 1`, saturating.
pub open spec fn level_of(v: Value) -> MaybeLevel {
    match v {
        Value::One => MaybeLevel::SomeLevel(0),
        Value::Type(l) => MaybeLevel::SomeLevel(
            if l == u32::MAX {
                l
            } else {
                (l + 1) as u32
            },
        ),
        Value::Pi(_, _, l) => MaybeLevel::SomeLevel(l),
        Value::Sigma(_, _, l) => MaybeLevel::SomeLevel(l),
        Value::Sum(_, l) => MaybeLevel::SomeLevel(l),
        _ => MaybeLevel::NoLevel,
    }
}

/// Position of the first entry of `branch` labelled `name`.
pub fn branch_position(branch: &Branch, name: &String) -> (r: Option<usize>)
    ensures
        match r {
            Some(i) => i < branch@.len() && find_label(branch@, name@) == Some(i as int),
            None => find_label(branch@, name@) is None,
        },
{
    let mut i: usize = 0;
    while i < branch.len()
        invariant
            i <= branch@.len(),
            find_label(branch@, name@) == label_index(branch@, name@, i as int),
        decreases branch@.len() - i,
    {
        if branch[i].0 == *name {
            return Some(i);
        }
        i = i + 1;
    }
    None
}

impl Pattern {
    /// Whether `name` is bound by this pattern.
    pub fn contains(&self, name: &String) -> (r: bool)
        ensures
            r == binds(*self, name@),
        decreases self,
    {
        match self {
            Pattern::Var(pattern_name) => *pattern_name == *name,
            Pattern::Pair(first, second) => first.contains(name) || second.contains(name),
            Pattern::Unit => false,
        }
    }

    /// The part of `val` that `name` stands for under this pattern.
    pub fn project(&self, name: &String, val: Value) -> (r: Result<Value, EvalError>)
        ensures
            r == projected(*self, *name, val),
        decreases self,
    {
        match self {
            Pattern::Pair(first, second) => {
                if first.contains(name) {
                    if val.is_pair_like() {
                        first.project(name, val.first())
                    } else {
                        Err(EvalError::NotAPair)
                    }
                } else if second.contains(name) {
                    if val.is_pair_like() {
                        second.project(name, val.second())
                    } else {
                        Err(EvalError::NotAPair)
                    }
                } else {
                    Err(EvalError::Unresolved(name.clone()))
                }
            },
            Pattern::Var(pattern_name) => {
                if *pattern_name == *name {
                    Ok(val)
                } else {
                    Err(EvalError::Unresolved(name.clone()))
                }
            },
            Pattern::Unit => Err(EvalError::Unresolved(name.clone())),
        }
    }
}

impl TelescopeRaw {
    /// The innermost frame that binds `name`.
    pub fn frame(&self, name: &String) -> (r: Option<&TelescopeRaw>)
        ensures
            match r {
                Some(f) => frame_for(*self, name@) == Some(*f),
                None => frame_for(*self, name@) is None,
            },
        decreases self,
    {
        match self {
            TelescopeRaw::Nil => None,
            TelescopeRaw::UpDec(context, declaration) => {
                if declaration.pattern.contains(name) {
                    Some(self)
                } else {
                    context.frame(name)
                }
            },
            TelescopeRaw::UpVar(context, pattern, _) => {
                if pattern.contains(name) {
                    Some(self)
                } else {
                    context.frame(name)
                }
            },
        }
    }

    /// The value of `name` in this environment.
    pub fn resolve(&self, name: &String, depth: u32) -> (r: Result<Value, EvalError>)
        ensures
            r == resolved(*self, *name, depth as nat),
        decreases depth, 1nat,
    {
        match self.frame(name) {
            Some(TelescopeRaw::UpDec(context, declaration)) => {
                let scope = if declaration.is_recursive {
                    Rc::new(TelescopeRaw::UpDec(context.clone(), declaration.clone()))
                } else {
                    context.clone()
                };
                match declaration.body.eval(scope, depth) {
                    Ok(v) => declaration.pattern.project(name, v),
                    Err(e) => Err(e),
                }
            },
            Some(TelescopeRaw::UpVar(_, pattern, v)) => pattern.project(name, v.copy()),
            _ => Err(EvalError::Unresolved(name.clone())),
        }
    }
}

impl Closure {
    /// The closure's body with its binder taken to be `value`.
    pub fn instantiate(&self, value: Value, depth: u32) -> (r: Result<Value, EvalError>)
        ensures
            r == instantiated(*self, value, depth as nat),
        decreases depth, 0nat,
    {
        if depth == 0 {
            return Err(EvalError::LimitReached);
        }
        let d = depth - 1;
        match self {
            Closure::Abstraction(pattern, _, expression, context) => {
                let scope = Rc::new(TelescopeRaw::UpVar(context.clone(), pattern.copy(), Rc::new(value)));
                expression.eval(scope, d)
            },
            Closure::Value(v) => Ok(v.copy()),
            Closure::Choice(closure, name) => {
                closure.instantiate(Value::Constructor(name.clone(), Rc::new(value)), d)
            },
        }
    }
}

impl Value {
    /// Whether a projection applies to this value.
    pub fn is_pair_like(&self) -> (r: bool)
        ensures
            r == pair_like(*self),
    {
        match self {
            Value::Pair(_, _) | Value::Neutral(_) => true,
            _ => false,
        }
    }

    /// The level of this value if it is a type.
    pub fn level_safe(&self) -> (r: MaybeLevel)
        ensures
            r == level_of(*self),
    {
        match self {
            Value::One => MaybeLevel::SomeLevel(0),
            Value::Type(level) => MaybeLevel::SomeLevel(
                if *level == u32::MAX {
                    *level
                } else {
                    *level + 1
                },
            ),
            Value::Pi(_, _, level) | Value::Sigma(_, _, level) | Value::Sum(_, level) => {
                MaybeLevel::SomeLevel(*level)
            },
            _ => MaybeLevel::NoLevel,
        }
    }

    /// The level of a type value.
    pub fn level(&self) -> (r: u32)
        requires
            level_of(*self) is SomeLevel,
        ensures
            level_of(*self) == MaybeLevel::SomeLevel(r),
    {
        match self.level_safe() {
            MaybeLevel::SomeLevel(level) => level,
            MaybeLevel::NoLevel => 0,
        }
    }

    /// The level of a type value, and 0 for any other value.
    pub fn suc_level(&self) -> (r: u32)
        ensures
            r == match level_of(*self) {
                MaybeLevel::SomeLevel(l) => l,
                MaybeLevel::NoLevel => 0,
            },
    {
        match self.level_safe() {
            MaybeLevel::SomeLevel(level) => level,
            MaybeLevel::NoLevel => 0,
        }
    }

    /// The first component of a pair, or a stuck projection of a neutral value.
    pub fn first(self) -> (r: Value)
        requires
            pair_like(self),
        ensures
            r == fst(self),
    {
        match self {
            Value::Pair(first, _) => first.copy(),
            Value::Neutral(neutral) => Value::Neutral(Neutral::First(Rc::new(neutral))),
            other => other,
        }
    }

    /// The second component of a pair, or a stuck projection of a neutral value.
    pub fn second(self) -> (r: Value)
        requires
            pair_like(self),
        ensures
            r == snd(self),
    {
        match self {
            Value::Pair(_, second) => second.copy(),
            Value::Neutral(neutral) => Value::Neutral(Neutral::Second(Rc::new(neutral))),
            other => other,
        }
    }

    /// Both components of a pair-like value.
    pub fn destruct(self) -> (r: (Value, Value))
        requires
            pair_like(self),
        ensures
            r == (fst(self), snd(self)),
    {
        match self {
            Value::Pair(first, second) => (first.copy(), second.copy()),
            Value::Neutral(neutral) => (
                Value::Neutral(Neutral::First(Rc::new(neutral.copy()))),
                Value::Neutral(Neutral::Second(Rc::new(neutral))),
            ),
            other => (other.copy(), other),
        }
    }

    /// Applies this value to `argument`.
    pub fn apply(self, argument: Value, depth: u32) -> (r: Result<Value, EvalError>)
        ensures
            r == applied(self, argument, depth as nat),
        decreases depth, 0nat,
    {
        if depth == 0 {
            return Err(EvalError::LimitReached);
        }
        let d = depth - 1;
        match self {
            Value::Lambda(closure) => closure.instantiate(argument, d),
            Value::Split(case_tree, context) => match argument {
                Value::Constructor(name, body) => match branch_position(&case_tree, &name) {
                    Some(i) => match case_tree[i].1.eval(context, d) {
                        Ok(branch) => branch.apply(body.copy(), d),
                        Err(x) => Err(x),
                    },
                    None => Err(EvalError::MissingBranch(name)),
                },
                Value::Neutral(neutral) => Ok(
                    Value::Neutral(Neutral::Split(case_tree, context, Rc::new(neutral))),
                ),
                _ => Err(EvalError::NotASum),
            },
            Value::Neutral(neutral) => Ok(
                Value::Neutral(Neutral::Application(Rc::new(neutral), Rc::new(argument))),
            ),
            _ => Err(EvalError::NotAFunction),
        }
    }
}

impl Expression {
    /// Evaluates this term under `context`, within `depth` nested steps.
    pub fn eval(&self, context: Telescope, depth: u32) -> (r: Result<Value, EvalError>)
        ensures
            r == evaluate(*self, context, depth as nat),
        decreases depth, 0nat,
    {
        if depth == 0 {
            return Err(EvalError::LimitReached);
        }
        let d = depth - 1;
        match self {
            Expression::Unit => Ok(Value::Unit),
            Expression::One => Ok(Value::One),
            Expression::Type(level) => Ok(Value::Type(*level)),
            Expression::Void => Err(EvalError::NoValue),
            Expression::Var(name) => context.resolve(name, d),
            Expression::Sum(b) => Ok(Value::Sum(Variants::Closed(b.clone(), context), 0)),
            Expression::Merge(l, r) => {
                let lv = match l.eval(context.clone(), d) {
                    Ok(v) => v,
                    Err(x) => return Err(x),
                };
                let rv = match r.eval(context, d) {
                    Ok(v) => v,
                    Err(x) => return Err(x),
                };
                match (lv, rv) {
                    (Value::Sum(a, la), Value::Sum(b, lb)) => Ok(
                        Value::Sum(
                            Variants::Merged(Rc::new(a), Rc::new(b)),
                            if la >= lb { la } else { lb },
                        ),
                    ),
                    _ => Err(EvalError::NotASum),
                }
            },
            Expression::Split(b) => Ok(Value::Split(b.clone(), context)),
            Expression::Pi(p, a, b) => match a.eval(context.clone(), d) {
                Ok(av) => {
                    let input = Rc::new(av);
                    Ok(Value::Pi(input.clone(), Closure::Abstraction(p.copy(), Some(input), b.clone(), context), 0))
                },
                Err(x) => Err(x),
            },
            Expression::Sigma(p, a, b) => match a.eval(context.clone(), d) {
                Ok(av) => {
                    let input = Rc::new(av);
                    Ok(Value::Sigma(input.clone(), Closure::Abstraction(p.copy(), Some(input), b.clone(), context), 0))
                },
                Err(x) => Err(x),
            },
            Expression::Lambda(p, _, body) => Ok(
                Value::Lambda(Closure::Abstraction(p.copy(), None, body.clone(), context)),
            ),
            Expression::Application(f, a) => {
                let fv = match f.eval(context.clone(), d) {
                    Ok(v) => v,
                    Err(x) => return Err(x),
                };
                match a.eval(context, d) {
                    Ok(av) => fv.apply(av, d),
                    Err(x) => Err(x),
                }
            },
            Expression::Pair(a, b) => {
                let av = match a.eval(context.clone(), d) {
                    Ok(v) => v,
                    Err(x) => return Err(x),
                };
                match b.eval(context, d) {
                    Ok(bv) => Ok(Value::Pair(Rc::new(av), Rc::new(bv))),
                    Err(x) => Err(x),
                }
            },
            Expression::First(p) => match p.eval(context, d) {
                Ok(v) => if v.is_pair_like() {
                    Ok(v.first())
                } else {
                    Err(EvalError::NotAPair)
                },
                Err(x) => Err(x),
            },
            Expression::Second(p) => match p.eval(context, d) {
                Ok(v) => if v.is_pair_like() {
                    Ok(v.second())
                } else {
                    Err(EvalError::NotAPair)
                },
                Err(x) => Err(x),
            },
            Expression::Constructor(name, body) => match body.eval(context, d) {
                Ok(v) => Ok(Value::Constructor(name.clone(), Rc::new(v))),
                Err(x) => Err(x),
            },
            Expression::Declaration(decl, rest) => rest.eval(
                Rc::new(TelescopeRaw::UpDec(context, decl.clone())),
                d,
            ),
            Expression::Constant(p, e1, rest) => match e1.eval(context.clone(), d) {
                Ok(v) => rest.eval(Rc::new(TelescopeRaw::UpVar(context, p.copy(), Rc::new(v))), d),
                Err(x) => Err(x),
            },
        }
    }
}

} // verus!
