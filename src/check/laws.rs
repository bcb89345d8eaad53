use crate::ast::{Branch, Closure, Expression, Telescope, Value, Variants};
use crate::check::expr::{checked, extra_labels, fallback_checked, inferred, split_checked};
use crate::check::subtype::{equal_normal, subtyped};
use crate::check::tcm::{TCM, TCS};
use crate::eval::find_label;
use std::rc::Rc;
use crate::normal::{lemma_normal_same_reflexive, shared};
use crate::read_back::normal_of;
use vstd::prelude::*;

verus! {

/// A checking outcome that is a success, or a failure that no typing rule caused.
pub open spec fn succeeds_or_defect<T>(r: TCM<T>) -> bool {
    r is Ok || r->Err_0.is_defect()
}

/// Subtyping is reflexive: a type is a subtype of itself, unless reading it
/// back fails (the depth limit, or a value the evaluator cannot handle).
pub proof fn lemma_subtype_reflexive(index: u32, t: Value, depth: nat)
    ensures
        succeeds_or_defect(subtyped(index, t, t, depth)),
{
    if depth > 0 {
        let d = (depth - 1) as nat;
        if let Ok(x) = normal_of(t, index, d) {
            lemma_normal_same_reflexive(x);
        }
        assert(equal_normal(index, t, t, d) is Ok || equal_normal(index, t, t, d)->Err_0.is_defect());
    }
}

proof fn lemma_fallback_on_inferred(index: u32, tcs: TCS, e: Expression, depth: nat)
    requires
        inferred(index, tcs, e, depth) is Ok,
    ensures
        succeeds_or_defect(fallback_checked(index, tcs, e, inferred(index, tcs, e, depth)->Ok_0, depth)),
{
    lemma_subtype_reflexive(index, inferred(index, tcs, e, depth)->Ok_0, depth);
}

/// Inference and checking agree: a term whose type is inferred as `T` checks
/// against `T`, unless a failure that no typing rule caused intervenes.
pub proof fn lemma_infer_check(index: u32, tcs: TCS, e: Expression, depth: nat)
    requires
        inferred(index, tcs, e, depth) is Ok,
    ensures
        succeeds_or_defect(checked(index, tcs, e, inferred(index, tcs, e, depth)->Ok_0, depth)),
    decreases depth,
{
    lemma_fallback_on_inferred(index, tcs, e, depth);
    let d = (depth - 1) as nat;
    match e {
        Expression::Constructor(_, body) => {
            lemma_infer_check(index, tcs, shared(body), d);
        },
        Expression::Pair(a, b) => {
            lemma_infer_check(index, tcs, shared(a), d);
            lemma_infer_check(index, tcs, shared(b), d);
        },
        _ => {},
    }
}

/// The function type whose domain is the sum of labels `sb` closed over `env`.
pub open spec fn split_target(sb: Rc<Branch>, env: Telescope, c: Closure) -> Value {
    Value::Pi(Rc::new(Value::Sum(Variants::Closed(sb, env), 0)), c, 0)
}

proof fn lemma_split_from_missing(
    index: u32,
    tcs: TCS,
    b: Rc<Branch>,
    sb: Rc<Branch>,
    env: Telescope,
    c: Closure,
    i: int,
    k: int,
    depth: nat,
)
    requires
        0 <= i <= k < sb@.len(),
        find_label(b@, sb@[k].0@) is None,
    ensures
        split_checked(index, tcs, b, sb, env, c, i, depth) is Err,
    decreases k - i,
{
    if i < k {
        lemma_split_from_missing(index, tcs, b, sb, env, c, i + 1, k, depth);
    }
}

/// Exhaustiveness: a case split with no branch for some label of its domain
/// sum does not check.
pub proof fn lemma_split_missing_label_fails(
    index: u32,
    tcs: TCS,
    b: Rc<Branch>,
    sb: Rc<Branch>,
    env: Telescope,
    c: Closure,
    k: int,
    depth: nat,
)
    requires
        0 <= k < sb@.len(),
        find_label(b@, sb@[k].0@) is None,
    ensures
        checked(index, tcs, Expression::Split(b), split_target(sb, env, c), depth) is Err,
{
    if depth > 0 {
        lemma_split_from_missing(index, tcs, b, sb, env, c, 0, k, (depth - 1) as nat);
    }
}

proof fn lemma_extra_labels_nonempty(s: Seq<(String, Rc<Expression>)>, sum: Seq<(String, Rc<Expression>)>, i: int, j: int)
    requires
        0 <= i <= j < s.len(),
        find_label(sum, s[j].0@) is None,
    ensures
        extra_labels(s, sum, i) is Label,
    decreases j - i,
{
    if i < j {
        lemma_extra_labels_nonempty(s, sum, i + 1, j);
    }
}

proof fn lemma_split_from_unexpected(
    index: u32,
    tcs: TCS,
    b: Rc<Branch>,
    sb: Rc<Branch>,
    env: Telescope,
    c: Closure,
    i: int,
    depth: nat,
)
    requires
        0 <= i,
        extra_labels(b@, sb@, 0) is Label,
    ensures
        split_checked(index, tcs, b, sb, env, c, i, depth) is Err,
    decreases sb@.len() - i,
{
    if i < sb@.len() {
        lemma_split_from_unexpected(index, tcs, b, sb, env, c, i + 1, depth);
    }
}

/// Exhaustiveness: a case split with a branch for a label that its domain
/// sum does not declare does not check.
pub proof fn lemma_split_unexpected_label_fails(
    index: u32,
    tcs: TCS,
    b: Rc<Branch>,
    sb: Rc<Branch>,
    env: Telescope,
    c: Closure,
    j: int,
    depth: nat,
)
    requires
        0 <= j < b@.len(),
        find_label(sb@, b@[j].0@) is None,
    ensures
        checked(index, tcs, Expression::Split(b), split_target(sb, env, c), depth) is Err,
{
    lemma_extra_labels_nonempty(b@, sb@, 0, j);
    if depth > 0 {
        lemma_split_from_unexpected(index, tcs, b, sb, env, c, 0, (depth - 1) as nat);
    }
}

} // verus!
