use std::rc::Rc;
use vstd::prelude::*;

verus! {

/// A binding pattern: how one bound value is destructured into names.
pub enum Pattern {
    Var(String),
    Pair(Rc<Pattern>, Rc<Pattern>),
    Unit,
}

/// A label-indexed list of terms, in source order (sum payloads or split branches).
pub type Branch = Vec<(String, Rc<Expression>)>;

/// Surface syntax.
pub enum Expression {
    Unit,
    One,
    Type(u32),
    Void,
    Var(String),
    Sum(Rc<Branch>),
    Merge(Rc<Expression>, Rc<Expression>),
    Split(Rc<Branch>),
    Pi(Pattern, Rc<Expression>, Rc<Expression>),
    Sigma(Pattern, Rc<Expression>, Rc<Expression>),
    Lambda(Pattern, Option<Rc<Expression>>, Rc<Expression>),
    Application(Rc<Expression>, Rc<Expression>),
    Pair(Rc<Expression>, Rc<Expression>),
    First(Rc<Expression>),
    Second(Rc<Expression>),
    Constructor(String, Rc<Expression>),
    Declaration(Rc<Declaration>, Rc<Expression>),
    Constant(Pattern, Rc<Expression>, Rc<Expression>),
}

/// A local declaration `pattern : signature = body`, possibly recursive.
pub struct Declaration {
    pub pattern: Pattern,
    pub signature: Rc<Expression>,
    pub body: Rc<Expression>,
    pub is_recursive: bool,
}

/// The labels of a sum value: syntax closed over an environment, one
/// already-evaluated label, or the union of two sums.
pub enum Variants {
    Closed(Rc<Branch>, Telescope),
    Single(String, Rc<Value>),
    Merged(Rc<Variants>, Rc<Variants>),
}

/// A deferred computation together with what it needs to resume.
pub enum Closure {
    Abstraction(Pattern, Option<Rc<Value>>, Rc<Expression>, Telescope),
    Value(Rc<Value>),
    Choice(Rc<Closure>, String),
}

/// A computation stuck on a generated variable.
pub enum Neutral {
    Generated(u32),
    Application(Rc<Neutral>, Rc<Value>),
    First(Rc<Neutral>),
    Second(Rc<Neutral>),
    Split(Rc<Branch>, Telescope, Rc<Neutral>),
}

/// Values in weak-head form.
pub enum Value {
    Lambda(Closure),
    Unit,
    One,
    Type(u32),
    Pi(Rc<Value>, Closure, u32),
    Sigma(Rc<Value>, Closure, u32),
    Pair(Rc<Value>, Rc<Value>),
    Constructor(String, Rc<Value>),
    Split(Rc<Branch>, Telescope),
    Sum(Variants, u32),
    Neutral(Neutral),
}

/// One frame of an environment.
pub enum TelescopeRaw {
    Nil,
    UpDec(Telescope, Rc<Declaration>),
    UpVar(Telescope, Pattern, Rc<Value>),
}

/// A shared, persistent environment.
pub type Telescope = Rc<TelescopeRaw>;

/// The universe level of a value, where it is a type.
pub enum MaybeLevel {
    SomeLevel(u32),
    NoLevel,
}

/// Why evaluation could not produce a value. Apart from `LimitReached`,
/// these arise only on terms that did not pass the checker.
pub enum EvalError {
    /// The name is bound nowhere in the environment.
    Unresolved(String),
    /// A projection of something that is not a pair.
    NotAPair,
    /// An application of something that is not a function.
    NotAFunction,
    /// A case split or a merge on something that is not a sum.
    NotASum,
    /// A case split has no branch for this label.
    MissingBranch(String),
    /// The term has no value (the empty type).
    NoValue,
    /// The depth limit, or the supply of fresh variables, ran out.
    LimitReached,
}

impl Pattern {
    /// An exact copy.
    pub fn copy(&self) -> (r: Pattern)
        ensures
            r == *self,
    {
        match self {
            Pattern::Var(name) => Pattern::Var(name.clone()),
            Pattern::Pair(first, second) => Pattern::Pair(first.clone(), second.clone()),
            Pattern::Unit => Pattern::Unit,
        }
    }
}

impl Expression {
    /// An exact copy.
    pub fn copy(&self) -> (r: Expression)
        ensures
            r == *self,
    {
        match self {
            Expression::Unit => Expression::Unit,
            Expression::One => Expression::One,
            Expression::Type(level) => Expression::Type(*level),
            Expression::Void => Expression::Void,
            Expression::Var(name) => Expression::Var(name.clone()),
            Expression::Sum(branch) => Expression::Sum(branch.clone()),
            Expression::Merge(l, r) => Expression::Merge(l.clone(), r.clone()),
            Expression::Split(branch) => Expression::Split(branch.clone()),
            Expression::Pi(p, a, b) => Expression::Pi(p.copy(), a.clone(), b.clone()),
            Expression::Sigma(p, a, b) => Expression::Sigma(p.copy(), a.clone(), b.clone()),
            Expression::Lambda(p, annotation, body) => {
                let annotation = match annotation {
                    Some(t) => Some(t.clone()),
                    None => None,
                };
                Expression::Lambda(p.copy(), annotation, body.clone())
            },
            Expression::Application(f, a) => Expression::Application(f.clone(), a.clone()),
            Expression::Pair(a, b) => Expression::Pair(a.clone(), b.clone()),
            Expression::First(e) => Expression::First(e.clone()),
            Expression::Second(e) => Expression::Second(e.clone()),
            Expression::Constructor(name, e) => Expression::Constructor(name.clone(), e.clone()),
            Expression::Declaration(d, rest) => Expression::Declaration(d.clone(), rest.clone()),
            Expression::Constant(p, e, rest) => Expression::Constant(p.copy(), e.clone(), rest.clone()),
        }
    }
}

impl Closure {
    /// An exact copy.
    pub fn copy(&self) -> (r: Closure)
        ensures
            r == *self,
    {
        match self {
            Closure::Abstraction(p, hint, body, env) => {
                let hint = match hint {
                    Some(h) => Some(h.clone()),
                    None => None,
                };
                Closure::Abstraction(p.copy(), hint, body.clone(), env.clone())
            },
            Closure::Value(v) => Closure::Value(v.clone()),
            Closure::Choice(c, name) => Closure::Choice(c.clone(), name.clone()),
        }
    }
}

impl Neutral {
    /// An exact copy.
    pub fn copy(&self) -> (r: Neutral)
        ensures
            r == *self,
    {
        match self {
            Neutral::Generated(id) => Neutral::Generated(*id),
            Neutral::Application(f, a) => Neutral::Application(f.clone(), a.clone()),
            Neutral::First(n) => Neutral::First(n.clone()),
            Neutral::Second(n) => Neutral::Second(n.clone()),
            Neutral::Split(b, env, n) => Neutral::Split(b.clone(), env.clone(), n.clone()),
        }
    }
}

impl Variants {
    /// An exact copy.
    pub fn copy(&self) -> (r: Variants)
        ensures
            r == *self,
    {
        match self {
            Variants::Closed(b, env) => Variants::Closed(b.clone(), env.clone()),
            Variants::Single(name, v) => Variants::Single(name.clone(), v.clone()),
            Variants::Merged(l, r) => Variants::Merged(l.clone(), r.clone()),
        }
    }
}

impl Value {
    /// An exact copy.
    pub fn copy(&self) -> (r: Value)
        ensures
            r == *self,
    {
        match self {
            Value::Lambda(c) => Value::Lambda(c.copy()),
            Value::Unit => Value::Unit,
            Value::One => Value::One,
            Value::Type(level) => Value::Type(*level),
            Value::Pi(a, c, level) => Value::Pi(a.clone(), c.copy(), *level),
            Value::Sigma(a, c, level) => Value::Sigma(a.clone(), c.copy(), *level),
            Value::Pair(a, b) => Value::Pair(a.clone(), b.clone()),
            Value::Constructor(name, v) => Value::Constructor(name.clone(), v.clone()),
            Value::Split(b, env) => Value::Split(b.clone(), env.clone()),
            Value::Sum(vs, level) => Value::Sum(vs.copy(), *level),
            Value::Neutral(n) => Value::Neutral(n.copy()),
        }
    }
}

} // verus!
