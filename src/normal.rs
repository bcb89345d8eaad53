use crate::ast::{Branch, Declaration, Expression, Pattern};
use std::rc::Rc;
use vstd::prelude::*;

verus! {

broadcast use {vstd::std_specs::vec::group_vec_axioms, vstd::seq::group_seq_axioms};

/// Normal forms: values read back with generated variables numbered.
pub enum NormalExpression {
    Lambda(u32, Rc<NormalExpression>),
    Pair(Rc<NormalExpression>, Rc<NormalExpression>),
    Unit,
    One,
    Type(u32),
    Pi(Rc<NormalExpression>, u32, Rc<NormalExpression>),
    Sigma(Rc<NormalExpression>, u32, Rc<NormalExpression>),
    Constructor(String, Rc<NormalExpression>),
    Split(Rc<Branch>, Rc<NormalTelescope>),
    Sum(NormalVariants),
    Neutral(NormalNeutral),
}

/// Normal form of the labels of a sum.
pub enum NormalVariants {
    Closed(Rc<Branch>, Rc<NormalTelescope>),
    Single(String, Rc<NormalExpression>),
    Merged(Rc<NormalVariants>, Rc<NormalVariants>),
}

/// Normal form of a stuck computation.
pub enum NormalNeutral {
    Generated(u32),
    Application(Rc<NormalNeutral>, Rc<NormalExpression>),
    First(Rc<NormalNeutral>),
    Second(Rc<NormalNeutral>),
    Split(Rc<Branch>, Rc<NormalTelescope>, Rc<NormalNeutral>),
}

/// Normal form of an environment.
pub enum NormalTelescope {
    Nil,
    UpDec(Rc<NormalTelescope>, Rc<Declaration>),
    UpVar(Rc<NormalTelescope>, Pattern, Rc<NormalExpression>),
}

/// The value that a shared pointer holds.
pub open spec fn shared<T>(r: Rc<T>) -> T {
    *r
}

/// Two patterns with the same shape and the same names.
pub open spec fn pattern_same(a: Pattern, b: Pattern) -> bool
    decreases a,
{
    match (a, b) {
        (Pattern::Var(x), Pattern::Var(y)) => x@ == y@,
        (Pattern::Pair(a1, a2), Pattern::Pair(b1, b2)) => pattern_same(*a1, *b1) && pattern_same(
            *a2,
            *b2,
        ),
        (Pattern::Unit, Pattern::Unit) => true,
        _ => false,
    }
}

/// Two label lists with the same labels and the same terms, in the same order.
pub open spec fn branch_same(a: Seq<(String, Rc<Expression>)>, b: Seq<(String, Rc<Expression>)>) -> bool
    decreases a,
{
    a.len() == b.len() && forall|i: int|
        0 <= i < a.len() ==> (#[trigger] a[i]).0@ == b[i].0@ && expr_same(*a[i].1, *b[i].1)
}

/// Two declarations that are written the same way.
pub open spec fn declaration_same(a: Declaration, b: Declaration) -> bool
    decreases a,
{
    pattern_same(a.pattern, b.pattern) && expr_same(*a.signature, *b.signature) && expr_same(
        *a.body,
        *b.body,
    ) && a.is_recursive == b.is_recursive
}

/// Two terms that are written the same way: same shape, same names.
pub open spec fn expr_same(a: Expression, b: Expression) -> bool
    decreases a,
{
    match a {
        Expression::Unit => b is Unit,
        Expression::One => b is One,
        Expression::Type(l) => b is Type && b->Type_0 == l,
        Expression::Void => b is Void,
        Expression::Var(x) => b is Var && b->Var_0@ == x@,
        Expression::Sum(x) => b is Sum && branch_same(x@, b->Sum_0@),
        Expression::Merge(a1, a2) => b is Merge && expr_same(*a1, *b->Merge_0) && expr_same(
            *a2,
            *b->Merge_1,
        ),
        Expression::Split(x) => b is Split && branch_same(x@, b->Split_0@),
        Expression::Pi(p, a1, a2) => b is Pi && pattern_same(p, b->Pi_0) && expr_same(
            *a1,
            *b->Pi_1,
        ) && expr_same(*a2, *b->Pi_2),
        Expression::Sigma(p, a1, a2) => b is Sigma && pattern_same(p, b->Sigma_0) && expr_same(
            *a1,
            *b->Sigma_1,
        ) && expr_same(*a2, *b->Sigma_2),
        Expression::Lambda(p, x, a1) => b is Lambda && pattern_same(p, b->Lambda_0)
            && match (x, b->Lambda_1) {
            (None, None) => true,
            (Some(s), Some(t)) => expr_same(*s, *t),
            _ => false,
        } && expr_same(*a1, *b->Lambda_2),
        Expression::Application(a1, a2) => b is Application && expr_same(*a1, *b->Application_0)
            && expr_same(*a2, *b->Application_1),
        Expression::Pair(a1, a2) => b is Pair && expr_same(*a1, *b->Pair_0) && expr_same(
            *a2,
            *b->Pair_1,
        ),
        Expression::First(x) => b is First && expr_same(*x, *b->First_0),
        Expression::Second(x) => b is Second && expr_same(*x, *b->Second_0),
        Expression::Constructor(x, a1) => b is Constructor && x@ == b->Constructor_0@ && expr_same(
            *a1,
            *b->Constructor_1,
        ),
        Expression::Declaration(x, a1) => b is Declaration && declaration_same(
            *x,
            *b->Declaration_0,
        ) && expr_same(*a1, *b->Declaration_1),
        Expression::Constant(p, a1, a2) => b is Constant && pattern_same(p, b->Constant_0)
            && expr_same(*a1, *b->Constant_1) && expr_same(*a2, *b->Constant_2),
    }
}

/// Two normal forms that are the same tree.
pub open spec fn normal_same(a: NormalExpression, b: NormalExpression) -> bool
    decreases a,
{
    match (a, b) {
        (NormalExpression::Lambda(i, x), NormalExpression::Lambda(j, y)) => i == j && normal_same(
            *x,
            *y,
        ),
        (NormalExpression::Pair(a1, a2), NormalExpression::Pair(b1, b2)) => normal_same(*a1, *b1)
            && normal_same(*a2, *b2),
        (NormalExpression::Unit, NormalExpression::Unit) => true,
        (NormalExpression::One, NormalExpression::One) => true,
        (NormalExpression::Type(l), NormalExpression::Type(m)) => l == m,
        (NormalExpression::Pi(a1, i, a2), NormalExpression::Pi(b1, j, b2)) => normal_same(*a1, *b1)
            && i == j && normal_same(*a2, *b2),
        (NormalExpression::Sigma(a1, i, a2), NormalExpression::Sigma(b1, j, b2)) => normal_same(
            *a1,
            *b1,
        ) && i == j && normal_same(*a2, *b2),
        (NormalExpression::Constructor(x, a1), NormalExpression::Constructor(y, b1)) => x@ == y@
            && normal_same(*a1, *b1),
        (NormalExpression::Split(x, t), NormalExpression::Split(y, u)) => branch_same(x@, y@)
            && telescope_same(*t, *u),
        (NormalExpression::Sum(x), NormalExpression::Sum(y)) => variants_same(x, y),
        (NormalExpression::Neutral(x), NormalExpression::Neutral(y)) => neutral_same(x, y),
        _ => false,
    }
}

/// Two normal sums that are the same tree.
pub open spec fn variants_same(a: NormalVariants, b: NormalVariants) -> bool
    decreases a,
{
    match (a, b) {
        (NormalVariants::Closed(x, t), NormalVariants::Closed(y, u)) => branch_same(x@, y@)
            && telescope_same(*t, *u),
        (NormalVariants::Single(x, v), NormalVariants::Single(y, w)) => x@ == y@ && normal_same(
            *v,
            *w,
        ),
        (NormalVariants::Merged(a1, a2), NormalVariants::Merged(b1, b2)) => variants_same(*a1, *b1)
            && variants_same(*a2, *b2),
        _ => false,
    }
}

/// Two normal stuck computations that are the same tree.
pub open spec fn neutral_same(a: NormalNeutral, b: NormalNeutral) -> bool
    decreases a,
{
    match (a, b) {
        (NormalNeutral::Generated(i), NormalNeutral::Generated(j)) => i == j,
        (NormalNeutral::Application(a1, a2), NormalNeutral::Application(b1, b2)) => neutral_same(
            *a1,
            *b1,
        ) && normal_same(*a2, *b2),
        (NormalNeutral::First(x), NormalNeutral::First(y)) => neutral_same(*x, *y),
        (NormalNeutral::Second(x), NormalNeutral::Second(y)) => neutral_same(*x, *y),
        (NormalNeutral::Split(x, t, n), NormalNeutral::Split(y, u, m)) => branch_same(x@, y@)
            && telescope_same(*t, *u) && neutral_same(*n, *m),
        _ => false,
    }
}

/// Two normal environments that are the same chain.
pub open spec fn telescope_same(a: NormalTelescope, b: NormalTelescope) -> bool
    decreases a,
{
    match (a, b) {
        (NormalTelescope::Nil, NormalTelescope::Nil) => true,
        (NormalTelescope::UpDec(t, d), NormalTelescope::UpDec(u, e)) => telescope_same(*t, *u)
            && declaration_same(*d, *e),
        (NormalTelescope::UpVar(t, p, v), NormalTelescope::UpVar(u, q, w)) => telescope_same(*t, *u)
            && pattern_same(p, q) && normal_same(*v, *w),
        _ => false,
    }
}

impl Pattern {
    /// Whether the two patterns are written the same way.
    pub fn same_as(&self, other: &Pattern) -> (r: bool)
        ensures
            r == pattern_same(*self, *other),
        decreases self,
    {
        match (self, other) {
            (Pattern::Var(x), Pattern::Var(y)) => *x == *y,
            (Pattern::Pair(a1, a2), Pattern::Pair(b1, b2)) => a1.same_as(b1) && a2.same_as(b2),
            (Pattern::Unit, Pattern::Unit) => true,
            _ => false,
        }
    }
}

/// Whether the two label lists are written the same way.
pub fn branch_same_as(a: &Branch, b: &Branch) -> (r: bool)
    ensures
        r == branch_same(a@, b@),
    decreases a@, 1nat,
{
    if a.len() != b.len() {
        return false;
    }
    let mut i: usize = 0;
    while i < a.len()
        invariant
            i <= a@.len(),
            a@.len() == b@.len(),
            forall|j: int| 0 <= j < i ==> (#[trigger] a@[j]).0@ == b@[j].0@ && expr_same(*a@[j].1, *b@[j].1),
        decreases a@.len() - i,
    {
        assert(decreases_to!(a@ => a@[i as int]));
        if !(a[i].0 == b[i].0 && a[i].1.same_as(&b[i].1)) {
            return false;
        }
        i = i + 1;
    }
    true
}

impl Declaration {
    /// Whether the two declarations are written the same way.
    pub fn same_as(&self, other: &Declaration) -> (r: bool)
        ensures
            r == declaration_same(*self, *other),
        decreases self, 0nat,
    {
        self.pattern.same_as(&other.pattern) && self.signature.same_as(&other.signature)
            && self.body.same_as(&other.body) && self.is_recursive == other.is_recursive
    }
}

impl Expression {
    /// Whether the two terms are written the same way.
    pub fn same_as(&self, other: &Expression) -> (r: bool)
        ensures
            r == expr_same(*self, *other),
        decreases self, 0nat,
    {
        match self {
            Expression::Unit => match other {
                Expression::Unit => true,
                _ => false,
            },
            Expression::One => match other {
                Expression::One => true,
                _ => false,
            },
            Expression::Type(l) => match other {
                Expression::Type(m) => *l == *m,
                _ => false,
            },
            Expression::Void => match other {
                Expression::Void => true,
                _ => false,
            },
            Expression::Var(x) => match other {
                Expression::Var(y) => *x == *y,
                _ => false,
            },
            Expression::Sum(x) => match other {
                Expression::Sum(y) => branch_same_as(x, y),
                _ => false,
            },
            Expression::Merge(a1, a2) => match other {
                Expression::Merge(b1, b2) => a1.same_as(b1) && a2.same_as(b2),
                _ => false,
            },
            Expression::Split(x) => match other {
                Expression::Split(y) => branch_same_as(x, y),
                _ => false,
            },
            Expression::Pi(p, a1, a2) => match other {
                Expression::Pi(q, b1, b2) => p.same_as(q) && a1.same_as(b1) && a2.same_as(b2),
                _ => false,
            },
            Expression::Sigma(p, a1, a2) => match other {
                Expression::Sigma(q, b1, b2) => p.same_as(q) && a1.same_as(b1) && a2.same_as(b2),
                _ => false,
            },
            Expression::Lambda(p, x, a1) => match other {
                Expression::Lambda(q, y, b1) => {
                    let annotations = match (x, y) {
                        (None, None) => true,
                        (Some(s), Some(t)) => s.same_as(t),
                        _ => false,
                    };
                    p.same_as(q) && annotations && a1.same_as(b1)
                },
                _ => false,
            },
            Expression::Application(a1, a2) => match other {
                Expression::Application(b1, b2) => a1.same_as(b1) && a2.same_as(b2),
                _ => false,
            },
            Expression::Pair(a1, a2) => match other {
                Expression::Pair(b1, b2) => a1.same_as(b1) && a2.same_as(b2),
                _ => false,
            },
            Expression::First(x) => match other {
                Expression::First(y) => x.same_as(y),
                _ => false,
            },
            Expression::Second(x) => match other {
                Expression::Second(y) => x.same_as(y),
                _ => false,
            },
            Expression::Constructor(x, a1) => match other {
                Expression::Constructor(y, b1) => *x == *y && a1.same_as(b1),
                _ => false,
            },
            Expression::Declaration(x, a1) => match other {
                Expression::Declaration(y, b1) => x.same_as(y) && a1.same_as(b1),
                _ => false,
            },
            Expression::Constant(p, a1, a2) => match other {
                Expression::Constant(q, b1, b2) => p.same_as(q) && a1.same_as(b1) && a2.same_as(b2),
                _ => false,
            },
        }
    }
}

impl NormalExpression {
    /// Whether the two normal forms are the same tree.
    pub fn same_as(&self, other: &NormalExpression) -> (r: bool)
        ensures
            r == normal_same(*self, *other),
        decreases self,
    {
        match self {
            NormalExpression::Lambda(i, x) => match other {
                NormalExpression::Lambda(j, y) => *i == *j && x.same_as(y),
                _ => false,
            },
            NormalExpression::Pair(a1, a2) => match other {
                NormalExpression::Pair(b1, b2) => a1.same_as(b1) && a2.same_as(b2),
                _ => false,
            },
            NormalExpression::Unit => match other {
                NormalExpression::Unit => true,
                _ => false,
            },
            NormalExpression::One => match other {
                NormalExpression::One => true,
                _ => false,
            },
            NormalExpression::Type(l) => match other {
                NormalExpression::Type(m) => *l == *m,
                _ => false,
            },
            NormalExpression::Pi(a1, i, a2) => match other {
                NormalExpression::Pi(b1, j, b2) => a1.same_as(b1) && *i == *j && a2.same_as(b2),
                _ => false,
            },
            NormalExpression::Sigma(a1, i, a2) => match other {
                NormalExpression::Sigma(b1, j, b2) => a1.same_as(b1) && *i == *j && a2.same_as(b2),
                _ => false,
            },
            NormalExpression::Constructor(x, a1) => match other {
                NormalExpression::Constructor(y, b1) => *x == *y && a1.same_as(b1),
                _ => false,
            },
            NormalExpression::Split(x, t) => match other {
                NormalExpression::Split(y, u) => branch_same_as(x, y) && t.same_as(u),
                _ => false,
            },
            NormalExpression::Sum(x) => match other {
                NormalExpression::Sum(y) => x.same_as(y),
                _ => false,
            },
            NormalExpression::Neutral(x) => match other {
                NormalExpression::Neutral(y) => x.same_as(y),
                _ => false,
            },
        }
    }
}

impl NormalVariants {
    /// Whether the two normal sums are the same tree.
    pub fn same_as(&self, other: &NormalVariants) -> (r: bool)
        ensures
            r == variants_same(*self, *other),
        decreases self,
    {
        match self {
            NormalVariants::Closed(x, t) => match other {
                NormalVariants::Closed(y, u) => branch_same_as(x, y) && t.same_as(u),
                _ => false,
            },
            NormalVariants::Single(x, v) => match other {
                NormalVariants::Single(y, w) => *x == *y && v.same_as(w),
                _ => false,
            },
            NormalVariants::Merged(a1, a2) => match other {
                NormalVariants::Merged(b1, b2) => a1.same_as(b1) && a2.same_as(b2),
                _ => false,
            },
        }
    }
}

impl NormalNeutral {
    /// Whether the two normal stuck computations are the same tree.
    pub fn same_as(&self, other: &NormalNeutral) -> (r: bool)
        ensures
            r == neutral_same(*self, *other),
        decreases self,
    {
        match self {
            NormalNeutral::Generated(i) => match other {
                NormalNeutral::Generated(j) => *i == *j,
                _ => false,
            },
            NormalNeutral::Application(a1, a2) => match other {
                NormalNeutral::Application(b1, b2) => a1.same_as(b1) && a2.same_as(b2),
                _ => false,
            },
            NormalNeutral::First(x) => match other {
                NormalNeutral::First(y) => x.same_as(y),
                _ => false,
            },
            NormalNeutral::Second(x) => match other {
                NormalNeutral::Second(y) => x.same_as(y),
                _ => false,
            },
            NormalNeutral::Split(x, t, n) => match other {
                NormalNeutral::Split(y, u, m) => branch_same_as(x, y) && t.same_as(u) && n.same_as(m),
                _ => false,
            },
        }
    }
}

impl NormalTelescope {
    /// Whether the two normal environments are the same chain.
    pub fn same_as(&self, other: &NormalTelescope) -> (r: bool)
        ensures
            r == telescope_same(*self, *other),
        decreases self,
    {
        match self {
            NormalTelescope::Nil => match other {
                NormalTelescope::Nil => true,
                _ => false,
            },
            NormalTelescope::UpDec(t, d) => match other {
                NormalTelescope::UpDec(u, e) => t.same_as(u) && d.same_as(e),
                _ => false,
            },
            NormalTelescope::UpVar(t, p, v) => match other {
                NormalTelescope::UpVar(u, q, w) => t.same_as(u) && p.same_as(q) && v.same_as(w),
                _ => false,
            },
        }
    }
}

/// Every pattern is the same as itself.
pub proof fn lemma_pattern_same_reflexive(p: Pattern)
    ensures
        pattern_same(p, p),
    decreases p,
{
    if let Pattern::Pair(a, b) = p {
        lemma_pattern_same_reflexive(shared(a));
        lemma_pattern_same_reflexive(shared(b));
    }
}

/// Every label list is the same as itself.
pub proof fn lemma_branch_same_reflexive(s: Seq<(String, Rc<Expression>)>)
    ensures
        branch_same(s, s),
    decreases s,
{
    assert forall|i: int| 0 <= i < s.len() implies (#[trigger] s[i]).0@ == s[i].0@ && expr_same(
        *s[i].1,
        *s[i].1,
    ) by {
        assert(decreases_to!(s => s[i]));
        lemma_expr_same_reflexive(shared(s[i].1));
    }
}

/// Every declaration is the same as itself.
pub proof fn lemma_declaration_same_reflexive(d: Declaration)
    ensures
        declaration_same(d, d),
    decreases d,
{
    lemma_pattern_same_reflexive(d.pattern);
    lemma_expr_same_reflexive(shared(d.signature));
    lemma_expr_same_reflexive(shared(d.body));
}

/// Every term is the same as itself.
pub proof fn lemma_expr_same_reflexive(e: Expression)
    ensures
        expr_same(e, e),
    decreases e,
{
    match e {
        Expression::Sum(b) => lemma_branch_same_reflexive(b@),
        Expression::Split(b) => lemma_branch_same_reflexive(b@),
        Expression::Merge(a, b) => {
            lemma_expr_same_reflexive(shared(a));
            lemma_expr_same_reflexive(shared(b));
        },
        Expression::Pi(p, a, b) => {
            lemma_pattern_same_reflexive(p);
            lemma_expr_same_reflexive(shared(a));
            lemma_expr_same_reflexive(shared(b));
        },
        Expression::Sigma(p, a, b) => {
            lemma_pattern_same_reflexive(p);
            lemma_expr_same_reflexive(shared(a));
            lemma_expr_same_reflexive(shared(b));
        },
        Expression::Lambda(p, x, b) => {
            lemma_pattern_same_reflexive(p);
            if let Some(t) = x {
                lemma_expr_same_reflexive(shared(t));
            }
            lemma_expr_same_reflexive(shared(b));
        },
        Expression::Application(a, b) => {
            lemma_expr_same_reflexive(shared(a));
            lemma_expr_same_reflexive(shared(b));
        },
        Expression::Pair(a, b) => {
            lemma_expr_same_reflexive(shared(a));
            lemma_expr_same_reflexive(shared(b));
        },
        Expression::First(a) => lemma_expr_same_reflexive(shared(a)),
        Expression::Second(a) => lemma_expr_same_reflexive(shared(a)),
        Expression::Constructor(_, a) => lemma_expr_same_reflexive(shared(a)),
        Expression::Declaration(d, a) => {
            lemma_declaration_same_reflexive(shared(d));
            lemma_expr_same_reflexive(shared(a));
        },
        Expression::Constant(p, a, b) => {
            lemma_pattern_same_reflexive(p);
            lemma_expr_same_reflexive(shared(a));
            lemma_expr_same_reflexive(shared(b));
        },
        _ => {},
    }
}

/// Every normal environment is the same as itself.
pub proof fn lemma_telescope_same_reflexive(t: NormalTelescope)
    ensures
        telescope_same(t, t),
    decreases t,
{
    match t {
        NormalTelescope::Nil => {},
        NormalTelescope::UpDec(rest, d) => {
            lemma_telescope_same_reflexive(shared(rest));
            lemma_declaration_same_reflexive(shared(d));
        },
        NormalTelescope::UpVar(rest, p, v) => {
            lemma_telescope_same_reflexive(shared(rest));
            lemma_pattern_same_reflexive(p);
            lemma_normal_same_reflexive(shared(v));
        },
    }
}

/// Every normal sum is the same as itself.
pub proof fn lemma_variants_same_reflexive(v: NormalVariants)
    ensures
        variants_same(v, v),
    decreases v,
{
    match v {
        NormalVariants::Closed(b, t) => {
            lemma_branch_same_reflexive(b@);
            lemma_telescope_same_reflexive(shared(t));
        },
        NormalVariants::Single(_, n) => lemma_normal_same_reflexive(shared(n)),
        NormalVariants::Merged(a, b) => {
            lemma_variants_same_reflexive(shared(a));
            lemma_variants_same_reflexive(shared(b));
        },
    }
}

/// Every normal stuck computation is the same as itself.
pub proof fn lemma_neutral_same_reflexive(n: NormalNeutral)
    ensures
        neutral_same(n, n),
    decreases n,
{
    match n {
        NormalNeutral::Generated(_) => {},
        NormalNeutral::Application(f, a) => {
            lemma_neutral_same_reflexive(shared(f));
            lemma_normal_same_reflexive(shared(a));
        },
        NormalNeutral::First(m) => lemma_neutral_same_reflexive(shared(m)),
        NormalNeutral::Second(m) => lemma_neutral_same_reflexive(shared(m)),
        NormalNeutral::Split(b, t, m) => {
            lemma_branch_same_reflexive(b@);
            lemma_telescope_same_reflexive(shared(t));
            lemma_neutral_same_reflexive(shared(m));
        },
    }
}

/// Every normal form is the same as itself.
pub proof fn lemma_normal_same_reflexive(n: NormalExpression)
    ensures
        normal_same(n, n),
    decreases n,
{
    match n {
        NormalExpression::Lambda(_, b) => lemma_normal_same_reflexive(shared(b)),
        NormalExpression::Pair(a, b) => {
            lemma_normal_same_reflexive(shared(a));
            lemma_normal_same_reflexive(shared(b));
        },
        NormalExpression::Pi(a, _, b) => {
            lemma_normal_same_reflexive(shared(a));
            lemma_normal_same_reflexive(shared(b));
        },
        NormalExpression::Sigma(a, _, b) => {
            lemma_normal_same_reflexive(shared(a));
            lemma_normal_same_reflexive(shared(b));
        },
        NormalExpression::Constructor(_, a) => lemma_normal_same_reflexive(shared(a)),
        NormalExpression::Split(b, t) => {
            lemma_branch_same_reflexive(b@);
            lemma_telescope_same_reflexive(shared(t));
        },
        NormalExpression::Sum(v) => lemma_variants_same_reflexive(v),
        NormalExpression::Neutral(m) => lemma_neutral_same_reflexive(m),
        _ => {},
    }
}

} // verus!
