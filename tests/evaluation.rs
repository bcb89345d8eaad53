use minitt::ast::{Closure, Declaration, EvalError, Expression, MaybeLevel, Neutral, Pattern, TelescopeRaw, Value};
use minitt::read_back::generate_value;
use std::rc::Rc;

const DEPTH: u32 = 100;

fn pvar(name: &str) -> Pattern {
    Pattern::Var(name.to_string())
}

fn pair_pattern() -> Pattern {
    Pattern::Pair(Rc::new(pvar("a")), Rc::new(pvar("b")))
}

#[test]
fn pattern_contains_its_names() {
    let p = pair_pattern();
    assert!(p.contains(&"a".to_string()));
    assert!(p.contains(&"b".to_string()));
    assert!(!p.contains(&"c".to_string()));
    assert!(!Pattern::Unit.contains(&"a".to_string()));
}

#[test]
fn pattern_projects_components() {
    let p = pair_pattern();
    let v = Value::Pair(Rc::new(Value::Unit), Rc::new(Value::One));
    assert!(matches!(p.project(&"b".to_string(), v), Ok(Value::One)));
    let n = generate_value(7);
    match p.project(&"a".to_string(), n) {
        Ok(Value::Neutral(Neutral::First(inner))) => assert!(matches!(*inner, Neutral::Generated(7))),
        _ => panic!("expected a stuck projection"),
    }
    assert!(matches!(p.project(&"a".to_string(), Value::Unit), Err(EvalError::NotAPair)));
    match p.project(&"c".to_string(), Value::Unit) {
        Err(EvalError::Unresolved(name)) => assert_eq!(name, "c"),
        _ => panic!("expected unresolved"),
    }
}

#[test]
fn environment_resolves_innermost_binding() {
    let outer = Rc::new(TelescopeRaw::UpVar(Rc::new(TelescopeRaw::Nil), pvar("x"), Rc::new(Value::Unit)));
    let inner = TelescopeRaw::UpVar(outer, pvar("x"), Rc::new(Value::One));
    assert!(matches!(inner.resolve(&"x".to_string(), DEPTH), Ok(Value::One)));
    match inner.resolve(&"y".to_string(), DEPTH) {
        Err(EvalError::Unresolved(name)) => assert_eq!(name, "y"),
        _ => panic!("expected unresolved"),
    }
}

#[test]
fn environment_resolves_declarations() {
    let decl = Declaration {
        pattern: pvar("u"),
        signature: Rc::new(Expression::One),
        body: Rc::new(Expression::Unit),
        is_recursive: false,
    };
    let env = TelescopeRaw::UpDec(Rc::new(TelescopeRaw::Nil), Rc::new(decl));
    assert!(matches!(env.resolve(&"u".to_string(), DEPTH), Ok(Value::Unit)));
}

#[test]
fn closures_instantiate() {
    let constant = Closure::Value(Rc::new(Value::One));
    assert!(matches!(constant.instantiate(Value::Unit, DEPTH), Ok(Value::One)));
    let body = Closure::Abstraction(pvar("x"), None, Rc::new(Expression::Var("x".to_string())), Rc::new(TelescopeRaw::Nil));
    let choice = Closure::Choice(Rc::new(body), "tag".to_string());
    match choice.instantiate(Value::Unit, DEPTH) {
        Ok(Value::Constructor(name, payload)) => {
            assert_eq!(name, "tag");
            assert!(matches!(*payload, Value::Unit));
        },
        _ => panic!("expected a tagged value"),
    }
}

#[test]
fn levels_of_types() {
    assert!(matches!(Value::One.level_safe(), MaybeLevel::SomeLevel(0)));
    assert!(matches!(Value::Type(2).level_safe(), MaybeLevel::SomeLevel(3)));
    assert!(matches!(Value::Unit.level_safe(), MaybeLevel::NoLevel));
    assert_eq!(Value::Type(0).level(), 1);
    assert_eq!(Value::Unit.suc_level(), 0);
    assert_eq!(Value::Type(6).suc_level(), 7);
}

#[test]
fn projections_and_destruct() {
    let v = Value::Pair(Rc::new(Value::Unit), Rc::new(Value::One));
    let (a, b) = v.destruct();
    assert!(matches!(a, Value::Unit));
    assert!(matches!(b, Value::One));
    let n = generate_value(1);
    match n.second() {
        Value::Neutral(Neutral::Second(inner)) => assert!(matches!(*inner, Neutral::Generated(1))),
        _ => panic!("expected a stuck projection"),
    }
    assert!(matches!(Value::Pair(Rc::new(Value::One), Rc::new(Value::Unit)).first(), Value::One));
}

#[test]
fn application_rules() {
    let stuck = generate_value(2).apply(Value::Unit, DEPTH);
    assert!(matches!(stuck, Ok(Value::Neutral(Neutral::Application(_, _)))));
    assert!(matches!(Value::Unit.apply(Value::Unit, DEPTH), Err(EvalError::NotAFunction)));
    assert!(matches!(Value::Unit.apply(Value::Unit, 0), Err(EvalError::LimitReached)));
}

#[test]
fn generated_values_are_neutral() {
    assert!(matches!(generate_value(4), Value::Neutral(Neutral::Generated(4))));
}
