use minitt::ast::{Declaration, EvalError, Expression, Pattern, TelescopeRaw, Value};
use minitt::check::expr::{check, check_infer, check_type};
use minitt::check::subtype::{check_subtype, eq_normal};
use minitt::check::tcm::{default_state, Labels, TCE};
use minitt::check::{check_declaration_main, check_infer_contextual, check_main};
use std::rc::Rc;

const DEPTH: u32 = 200;

fn rc(e: Expression) -> Rc<Expression> {
    Rc::new(e)
}

fn var(name: &str) -> Expression {
    Expression::Var(name.to_string())
}

fn pvar(name: &str) -> Pattern {
    Pattern::Var(name.to_string())
}

fn empty() -> Rc<TelescopeRaw> {
    Rc::new(TelescopeRaw::Nil)
}

fn sum(labels: &[&str]) -> Expression {
    let mut branch = Vec::new();
    for l in labels {
        branch.push((l.to_string(), rc(Expression::One)));
    }
    Expression::Sum(Rc::new(branch))
}

fn split(labels: &[&str]) -> Expression {
    let mut branch = Vec::new();
    for l in labels {
        branch.push((l.to_string(), rc(Expression::Lambda(pvar("u"), None, rc(Expression::Unit)))));
    }
    Expression::Split(Rc::new(branch))
}

fn one_to_one() -> Value {
    Expression::Pi(pvar("x"), rc(Expression::One), rc(Expression::One))
        .eval(empty(), DEPTH)
        .ok()
        .unwrap()
}

fn identity(name: &str) -> Expression {
    Expression::Lambda(pvar(name), None, rc(var(name)))
}

#[test]
fn identity_checks_against_one_to_one() {
    let r = check(0, default_state(), &identity("x"), one_to_one(), DEPTH);
    assert!(r.is_ok());
}

#[test]
fn identity_applied_to_unit_is_unit() {
    let app = Expression::Application(rc(identity("x")), rc(Expression::Unit));
    let v = app.eval(empty(), DEPTH).ok().unwrap();
    assert!(matches!(v, Value::Unit));
}

#[test]
fn identity_declaration_program_checks() {
    let decl = Declaration {
        pattern: pvar("id"),
        signature: rc(Expression::Pi(pvar("x"), rc(Expression::One), rc(Expression::One))),
        body: rc(identity("x")),
        is_recursive: false,
    };
    let program = Expression::Declaration(Rc::new(decl), rc(Expression::Application(rc(var("id")), rc(Expression::Unit))));
    assert!(check_main(program).is_ok());
}

#[test]
fn constructor_checks_against_declaring_sum() {
    let t = sum(&["inl", "inr"]).eval(empty(), DEPTH).ok().unwrap();
    let e = Expression::Constructor("inl".to_string(), rc(Expression::Unit));
    assert!(check(0, default_state(), &e, t, DEPTH).is_ok());
}

#[test]
fn constructor_rejected_by_sum_without_label() {
    let t = sum(&["inr"]).eval(empty(), DEPTH).ok().unwrap();
    let e = Expression::Constructor("inl".to_string(), rc(Expression::Unit));
    match check(0, default_state(), &e, t, DEPTH) {
        Err(TCE::InvalidConstructor(name)) => assert_eq!(name, "inl"),
        _ => panic!("expected an invalid constructor"),
    }
}

#[test]
fn pair_checks_and_projects() {
    let t = Expression::Sigma(pvar("x"), rc(Expression::One), rc(Expression::One)).eval(empty(), DEPTH).ok().unwrap();
    let pair = Expression::Pair(rc(Expression::Unit), rc(Expression::Unit));
    assert!(check(0, default_state(), &pair, t, DEPTH).is_ok());
    let first = Expression::First(rc(Expression::Pair(rc(Expression::Unit), rc(Expression::Unit))));
    let second = Expression::Second(rc(Expression::Pair(rc(Expression::Unit), rc(Expression::Unit))));
    assert!(matches!(first.eval(empty(), DEPTH), Ok(Value::Unit)));
    assert!(matches!(second.eval(empty(), DEPTH), Ok(Value::Unit)));
}

#[test]
fn unbound_variable_is_unresolved() {
    match check_infer(0, default_state(), &var("z"), DEPTH) {
        Err(TCE::UnresolvedName(name)) => assert_eq!(name, "z"),
        _ => panic!("expected an unresolved name"),
    }
}

fn split_type(labels: &[&str]) -> Value {
    Expression::Pi(pvar("s"), rc(sum(labels)), rc(Expression::One)).eval(empty(), DEPTH).ok().unwrap()
}

#[test]
fn split_missing_a_case() {
    match check(0, default_state(), &split(&["A", "B"]), split_type(&["A", "B", "C"]), DEPTH) {
        Err(TCE::MissingCase(name)) => assert_eq!(name, "C"),
        _ => panic!("expected a missing case"),
    }
}

#[test]
fn split_with_unexpected_case() {
    match check(0, default_state(), &split(&["A", "B", "C", "D"]), split_type(&["A", "B", "C"]), DEPTH) {
        Err(TCE::UnexpectedCases(Labels::Label(name, rest))) => {
            assert_eq!(name, "D");
            assert!(matches!(*rest, Labels::End));
        },
        _ => panic!("expected unexpected cases"),
    }
}

#[test]
fn split_exhaustive_checks() {
    let r = check(0, default_state(), &split(&["A", "B", "C"]), split_type(&["A", "B", "C"]), DEPTH);
    assert!(r.is_ok());
}

#[test]
fn split_applied_to_constructor_reduces() {
    let app = Expression::Application(
        rc(split(&["A", "B"])),
        rc(Expression::Constructor("B".to_string(), rc(Expression::Unit))),
    );
    assert!(matches!(app.eval(empty(), DEPTH), Ok(Value::Unit)));
}

#[test]
fn split_applied_to_unknown_label_fails() {
    let app = Expression::Application(
        rc(split(&["A"])),
        rc(Expression::Constructor("Z".to_string(), rc(Expression::Unit))),
    );
    match app.eval(empty(), DEPTH) {
        Err(EvalError::MissingBranch(name)) => assert_eq!(name, "Z"),
        _ => panic!("expected a missing branch"),
    }
}

#[test]
fn inferred_type_checks_back() {
    let e = Expression::Pair(rc(Expression::Unit), rc(Expression::Constructor("a".to_string(), rc(Expression::Unit))));
    let t = check_infer(0, default_state(), &e, DEPTH).ok().unwrap();
    assert!(matches!(t, Value::Sigma(_, _, _)));
    assert!(check(0, default_state(), &e, t, DEPTH).is_ok());
}

#[test]
fn universe_levels_are_cumulative() {
    assert!(check_subtype(0, &Value::Type(1), &Value::Type(3), DEPTH).is_ok());
    assert!(matches!(check_subtype(0, &Value::Type(3), &Value::Type(1), DEPTH), Err(TCE::NotEqual(_, _))));
    match check_infer(0, default_state(), &Expression::Type(4), DEPTH) {
        Ok(Value::Type(l)) => assert_eq!(l, 5),
        _ => panic!("expected a universe"),
    }
    match check_infer(0, default_state(), &Expression::Type(u32::MAX), DEPTH) {
        Ok(Value::Type(l)) => assert_eq!(l, u32::MAX),
        _ => panic!("expected a universe"),
    }
}

#[test]
fn single_label_sum_is_subtype_of_wider_sum() {
    let e = Expression::Constructor("inl".to_string(), rc(Expression::Unit));
    let narrow = check_infer(0, default_state(), &e, DEPTH).ok().unwrap();
    let wide = sum(&["inl", "inr"]).eval(empty(), DEPTH).ok().unwrap();
    assert!(check_subtype(0, &narrow, &wide, DEPTH).is_ok());
    let other = sum(&["inr"]).eval(empty(), DEPTH).ok().unwrap();
    match check_subtype(0, &narrow, &other, DEPTH) {
        Err(TCE::InvalidConstructor(name)) => assert_eq!(name, "inl"),
        _ => panic!("expected an invalid constructor"),
    }
}

#[test]
fn alpha_equivalent_lambdas_read_back_equal() {
    let a = identity("x").eval(empty(), DEPTH).ok().unwrap();
    let b = identity("y").eval(empty(), DEPTH).ok().unwrap();
    assert!(eq_normal(0, &a, &b, DEPTH).is_ok());
    let na = a.read_back(0, DEPTH).ok().unwrap();
    let nb = b.read_back(0, DEPTH).ok().unwrap();
    assert!(na.same_as(&nb));
}

#[test]
fn read_back_is_deterministic() {
    let v = one_to_one();
    let first = v.read_back(3, DEPTH).ok().unwrap();
    let second = v.read_back(3, DEPTH).ok().unwrap();
    assert!(first.same_as(&second));
}

#[test]
fn different_values_are_not_equal() {
    let a = identity("x").eval(empty(), DEPTH).ok().unwrap();
    let k = Expression::Lambda(pvar("x"), None, rc(Expression::Unit)).eval(empty(), DEPTH).ok().unwrap();
    assert!(matches!(eq_normal(0, &a, &k, DEPTH), Err(TCE::NotEqual(_, _))));
}

#[test]
fn application_of_non_function_is_rejected() {
    let e = Expression::Application(rc(Expression::Unit), rc(Expression::Unit));
    assert!(matches!(check_infer(0, default_state(), &e, DEPTH), Err(TCE::WantPiBut(Value::One, _))));
}

#[test]
fn projection_of_non_pair_is_rejected() {
    let e = Expression::First(rc(Expression::Unit));
    assert!(matches!(check_infer(0, default_state(), &e, DEPTH), Err(TCE::WantSigmaBut(Value::One))));
}

#[test]
fn lambda_is_not_inferable() {
    assert!(matches!(check_infer(0, default_state(), &identity("x"), DEPTH), Err(TCE::CannotInfer(_))));
}

#[test]
fn bare_local_binding_is_unreachable_for_inference() {
    let e = Expression::Constant(pvar("a"), rc(Expression::Unit), rc(Expression::Unit));
    assert!(matches!(check_infer_contextual(default_state(), e), Err(TCE::Unreachable)));
}

#[test]
fn local_binding_uses_value() {
    let e = Expression::Constant(pvar("a"), rc(Expression::Unit), rc(var("a")));
    assert!(check_main(e).is_ok());
}

#[test]
fn depth_limit_is_reported() {
    match check(0, default_state(), &Expression::Unit, Value::One, 0) {
        Err(TCE::Evaluation(EvalError::LimitReached)) => {},
        _ => panic!("expected the limit"),
    }
}

#[test]
fn void_is_accepted_anywhere() {
    assert!(check(0, default_state(), &Expression::Void, Value::Unit, DEPTH).is_ok());
    assert!(check_type(0, default_state(), &Expression::Void, DEPTH).is_ok());
    assert!(matches!(Expression::Void.eval(empty(), DEPTH), Err(EvalError::NoValue)));
}

#[test]
fn recursive_declaration_of_naturals() {
    let mut branch = Vec::new();
    branch.push(("zero".to_string(), rc(Expression::One)));
    branch.push(("suc".to_string(), rc(var("nat"))));
    let decl = Declaration {
        pattern: pvar("nat"),
        signature: rc(Expression::Type(0)),
        body: rc(Expression::Sum(Rc::new(branch))),
        is_recursive: true,
    };
    let state = check_declaration_main(decl);
    assert!(state.is_ok());
    let state = state.ok().unwrap();
    let two = Expression::Constructor(
        "suc".to_string(),
        rc(Expression::Constructor("suc".to_string(), rc(Expression::Constructor("zero".to_string(), rc(Expression::Unit))))),
    );
    let nat = var("nat").eval(state.context.clone(), DEPTH).ok().unwrap();
    assert!(check(0, state, &two, nat, DEPTH).is_ok());
}

#[test]
fn merged_sum_accepts_labels_of_both_sides() {
    let merged = Expression::Merge(rc(sum(&["a"])), rc(sum(&["b"])));
    let t = merged.eval(empty(), DEPTH).ok().unwrap();
    assert!(matches!(t, Value::Sum(_, 0)));
    let e = Expression::Constructor("b".to_string(), rc(Expression::Unit));
    assert!(check(0, default_state(), &e, t, DEPTH).is_ok());
}

#[test]
fn merged_sum_with_overlapping_label_takes_left_payload() {
    let mut left = Vec::new();
    left.push(("a".to_string(), rc(Expression::One)));
    let mut right = Vec::new();
    right.push(("a".to_string(), rc(Expression::Type(0))));
    let merged = Expression::Merge(rc(Expression::Sum(Rc::new(left))), rc(Expression::Sum(Rc::new(right))));
    let t = merged.eval(empty(), DEPTH).ok().unwrap();
    let e = Expression::Constructor("a".to_string(), rc(Expression::Unit));
    assert!(check(0, default_state(), &e, t, DEPTH).is_ok());
}

#[test]
fn merge_of_non_sums_fails() {
    let merged = Expression::Merge(rc(Expression::One), rc(sum(&["b"])));
    assert!(matches!(merged.eval(empty(), DEPTH), Err(EvalError::NotASum)));
}

#[test]
fn inferred_pair_with_empty_type_component_stops_in_evaluation() {
    let e = Expression::Pair(rc(Expression::Void), rc(Expression::Unit));
    let t = check_infer(0, default_state(), &e, DEPTH).ok().unwrap();
    match check(0, default_state(), &e, t, DEPTH) {
        Err(TCE::Evaluation(EvalError::NoValue)) => {},
        _ => panic!("expected the evaluator to stop"),
    }
}

#[test]
fn identity_read_back_ignores_environment() {
    let env = Rc::new(TelescopeRaw::UpVar(empty(), pvar("y"), Rc::new(Value::One)));
    let a = identity("x").eval(empty(), DEPTH).ok().unwrap();
    let b = identity("y").eval(env, DEPTH).ok().unwrap();
    let na = a.read_back(5, DEPTH).ok().unwrap();
    let nb = b.read_back(5, DEPTH).ok().unwrap();
    assert!(na.same_as(&nb));
}

#[test]
fn function_types_compare_contravariantly() {
    let narrow = Expression::Constructor("inl".to_string(), rc(Expression::Unit));
    let single = check_infer(0, default_state(), &narrow, DEPTH).ok().unwrap();
    let wide = sum(&["inl", "inr"]).eval(empty(), DEPTH).ok().unwrap();
    let to_unit = |dom: Value| Value::Pi(
        Rc::new(dom),
        minitt::ast::Closure::Value(Rc::new(Value::One)),
        0,
    );
    let from_wide = to_unit(wide.copy());
    let from_single = to_unit(single.copy());
    assert!(check_subtype(0, &from_wide, &from_single, DEPTH).is_ok());
    assert!(check_subtype(0, &from_single, &from_wide, DEPTH).is_err());
}
