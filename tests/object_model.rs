use std::rc::Rc;

use lox_class::callable::LoxCallable;
use lox_class::class::{LoxClass, MethodMap};
use lox_class::function::{Expr, LoxFunction, Stmt};
use lox_class::interpreter::Interpreter;
use lox_class::table::NameTable;
use lox_class::value::{RuntimeError, Value};

fn method(name: &str, params: usize, body: Vec<Stmt>) -> Rc<LoxFunction> {
    Rc::new(LoxFunction::new(name.to_string(), params, body))
}

fn table(methods: Vec<Rc<LoxFunction>>) -> MethodMap {
    let mut t = NameTable::new();
    for m in methods {
        t.insert(m.name().to_string(), m);
    }
    t
}

fn class(name: &str, superclass: Option<Rc<LoxClass>>, methods: Vec<Rc<LoxFunction>>) -> Rc<LoxClass> {
    Rc::new(LoxClass::new(name.to_string(), superclass, table(methods)))
}

fn text(s: &str) -> Value {
    Value::Str(s.to_string())
}

fn handle(v: Result<Value, RuntimeError>) -> usize {
    match v {
        Ok(Value::Instance(h)) => h,
        other => panic!("expected an instance, got {:?}", other),
    }
}

fn animal() -> Rc<LoxClass> {
    class(
        "Animal",
        None,
        vec![
            method("speak", 0, vec![Stmt::Return(Expr::Literal(text("...")))]),
            method("me", 0, vec![Stmt::Return(Expr::This)]),
        ],
    )
}

fn counter() -> Rc<LoxClass> {
    class(
        "Counter",
        None,
        vec![method(
            "init",
            1,
            vec![Stmt::SetField("count".to_string(), Expr::Param(0))],
        )],
    )
}

#[test]
fn dog_speaks_through_animal() {
    let dog_class = class("Dog", Some(animal()), vec![]);
    let mut interp = Interpreter::new();
    let dog = handle(dog_class.call(&mut interp, vec![]));
    let speak = dog_class.get_method("speak", dog).expect("speak is inherited");
    assert_eq!(speak.this_binding(), Some(dog));
    assert_eq!(speak.call(&mut interp, vec![]), Ok(text("...")));
    let me = dog_class.get_method("me", dog).expect("me is inherited");
    assert_eq!(me.call(&mut interp, vec![]), Ok(Value::Instance(dog)));
}

#[test]
fn inherited_method_binds_instance_two_levels_down() {
    let mammal = class("Mammal", Some(animal()), vec![]);
    let puppy_class = class("Puppy", Some(class("Dog", Some(mammal), vec![])), vec![]);
    let mut interp = Interpreter::new();
    let _other = handle(animal().call(&mut interp, vec![]));
    let puppy = handle(puppy_class.call(&mut interp, vec![]));
    assert_eq!(puppy, 1);
    let me = puppy_class.get_method("me", puppy).expect("me is inherited");
    assert_eq!(me.this_binding(), Some(1));
    assert_eq!(me.call(&mut interp, vec![]), Ok(Value::Instance(1)));
}

#[test]
fn own_method_overrides_superclass() {
    let dog_class = class(
        "Dog",
        Some(animal()),
        vec![method("speak", 0, vec![Stmt::Return(Expr::Literal(text("woof")))])],
    );
    let mut interp = Interpreter::new();
    let dog = handle(dog_class.call(&mut interp, vec![]));
    let speak = dog_class.get_method("speak", dog).unwrap();
    assert_eq!(speak.call(&mut interp, vec![]), Ok(text("woof")));
    let base = animal().get_method("speak", dog).unwrap();
    assert_eq!(base.call(&mut interp, vec![]), Ok(text("...")));
}

#[test]
fn missing_method_is_absent() {
    let dog_class = class("Dog", Some(animal()), vec![]);
    assert!(dog_class.get_method("fly", 0).is_none());
    assert!(animal().get_method("fly", 0).is_none());
}

#[test]
fn counter_init_sets_count() {
    let counter_class = counter();
    assert_eq!(counter_class.arity(), 1);
    let mut interp = Interpreter::new();
    let c = handle(counter_class.call(&mut interp, vec![Value::Int(5)]));
    assert_eq!(interp.get_field(c, &"count".to_string()), Ok(Value::Int(5)));
}

#[test]
fn special_counter_runs_no_initializer() {
    let special = class("SpecialCounter", Some(counter()), vec![]);
    assert_eq!(special.arity(), 0);
    let mut interp = Interpreter::new();
    let c = handle(special.call(&mut interp, vec![]));
    assert_eq!(
        interp.get_field(c, &"count".to_string()),
        Err(RuntimeError::UndefinedProperty("count".to_string()))
    );
    // Ordinary lookup still reaches the superclass's initializer.
    let init = special.get_method("init", c).expect("init is inherited");
    assert_eq!(init.arity(), 1);
}

#[test]
fn class_without_init_makes_empty_instance() {
    let plain = class("Plain", None, vec![]);
    assert_eq!(plain.arity(), 0);
    let mut interp = Interpreter::new();
    let p = handle(plain.call(&mut interp, vec![]));
    assert_eq!(p, 0);
    assert_eq!(interp.instance_count(), 1);
    assert_eq!(
        interp.get_field(p, &"x".to_string()),
        Err(RuntimeError::UndefinedProperty("x".to_string()))
    );
}

#[test]
fn init_with_two_parameters() {
    let point = class(
        "Point",
        None,
        vec![method(
            "init",
            2,
            vec![
                Stmt::SetField("x".to_string(), Expr::Param(0)),
                Stmt::SetField("y".to_string(), Expr::Param(1)),
            ],
        )],
    );
    assert_eq!(point.arity(), 2);
    let mut interp = Interpreter::new();
    let p = handle(point.call(&mut interp, vec![Value::Int(3), Value::Int(-4)]));
    assert_eq!(interp.get_field(p, &"x".to_string()), Ok(Value::Int(3)));
    assert_eq!(interp.get_field(p, &"y".to_string()), Ok(Value::Int(-4)));
}

#[test]
fn init_return_value_is_dropped() {
    let odd = class(
        "Odd",
        None,
        vec![method(
            "init",
            0,
            vec![
                Stmt::SetField("done".to_string(), Expr::Literal(Value::Bool(true))),
                Stmt::Return(Expr::Literal(Value::Int(42))),
                Stmt::SetField("after".to_string(), Expr::Literal(Value::Nil)),
            ],
        )],
    );
    let mut interp = Interpreter::new();
    let r = odd.call(&mut interp, vec![]);
    assert_eq!(r, Ok(Value::Instance(0)));
    assert_eq!(interp.get_field(0, &"done".to_string()), Ok(Value::Bool(true)));
    assert!(interp.get_field(0, &"after".to_string()).is_err());
}

#[test]
fn init_failure_propagates() {
    let broken = class(
        "Broken",
        None,
        vec![method(
            "init",
            0,
            vec![
                Stmt::SetField("a".to_string(), Expr::Literal(Value::Int(1))),
                Stmt::SetField("b".to_string(), Expr::Field("missing".to_string())),
            ],
        )],
    );
    let mut interp = Interpreter::new();
    assert_eq!(
        broken.call(&mut interp, vec![]),
        Err(RuntimeError::UndefinedProperty("missing".to_string()))
    );
}

#[test]
fn same_method_bound_to_two_instances() {
    let setter = LoxFunction::new(
        "set".to_string(),
        1,
        vec![
            Stmt::SetField("x".to_string(), Expr::Param(0)),
            Stmt::Return(Expr::Field("x".to_string())),
        ],
    );
    let box_class = class("Box", None, vec![]);
    let mut interp = Interpreter::new();
    let a = handle(box_class.call(&mut interp, vec![]));
    let b = handle(box_class.call(&mut interp, vec![]));
    let on_a = setter.bind(a);
    let on_b = setter.bind(b);
    assert_eq!(on_a.call(&mut interp, vec![Value::Int(1)]), Ok(Value::Int(1)));
    assert_eq!(interp.get_field(b, &"x".to_string()).is_err(), true);
    assert_eq!(on_b.call(&mut interp, vec![Value::Int(2)]), Ok(Value::Int(2)));
    assert_eq!(interp.get_field(a, &"x".to_string()), Ok(Value::Int(1)));
    assert_eq!(interp.get_field(b, &"x".to_string()), Ok(Value::Int(2)));
    assert_eq!(setter.this_binding(), None);
}

#[test]
fn unbound_this_is_an_error() {
    let f = LoxFunction::new("f".to_string(), 0, vec![Stmt::Return(Expr::This)]);
    let mut interp = Interpreter::new();
    assert_eq!(f.call(&mut interp, vec![]), Err(RuntimeError::UnboundThis));
}

#[test]
fn missing_argument_is_an_error() {
    let f = LoxFunction::new("f".to_string(), 0, vec![Stmt::Return(Expr::Param(0))]);
    let mut interp = Interpreter::new();
    assert_eq!(f.call(&mut interp, vec![]), Err(RuntimeError::MissingArgument(0)));
}

#[test]
fn dangling_instance_is_an_error() {
    let f = LoxFunction::new("f".to_string(), 0, vec![Stmt::Return(Expr::Field("x".to_string()))]);
    let mut interp = Interpreter::new();
    assert_eq!(f.bind(9).call(&mut interp, vec![]), Err(RuntimeError::DanglingInstance(9)));
}

#[test]
fn function_without_return_gives_nil() {
    let f = LoxFunction::new("f".to_string(), 0, vec![]);
    let mut interp = Interpreter::new();
    assert_eq!(f.call(&mut interp, vec![]), Ok(Value::Nil));
    assert_eq!(f.name(), "f");
}

#[test]
fn class_name_and_display() {
    let dog_class = class("Dog", Some(animal()), vec![]);
    assert_eq!(dog_class.name(), "Dog");
    assert_eq!(dog_class.to_string(), "Dog");
    let copy = dog_class.duplicate();
    assert_eq!(copy.name(), "Dog");
    assert!(copy.get_method("speak", 0).is_some());
}

#[test]
fn table_insert_replaces() {
    let mut t: NameTable<Value> = NameTable::new();
    assert!(t.get("k").is_none());
    t.insert("k".to_string(), Value::Int(1));
    t.insert("j".to_string(), Value::Int(2));
    t.insert("k".to_string(), Value::Int(3));
    assert_eq!(t.get("k"), Some(&Value::Int(3)));
    assert_eq!(t.get("j"), Some(&Value::Int(2)));
}
