use vstd::prelude::*;
use std::rc::Rc;
use crate::callable::LoxCallable;
use crate::interpreter::{read_field, write_field, Interpreter, ObjectState};
use crate::value::{RuntimeError, Value};

verus! {

/// An expression of a method body.
#[derive(Debug)]
pub enum Expr {
    Literal(Value),
    /// The argument at this position.
    Param(usize),
    This,
    /// A field of `this`.
    Field(String),
}

/// A statement of a method body.
#[derive(Debug)]
pub enum Stmt {
    /// Sets a field of `this`.
    SetField(String, Expr),
    Return(Expr),
}

/// What a function is: its name, parameter count, body and the instance
/// that `this` is bound to, if any.
pub struct FunctionModel {
    pub name: Seq<char>,
    pub arity: nat,
    pub body: Seq<Stmt>,
    pub this: Option<usize>,
}

/// `f` with `this` bound to `instance`.
pub open spec fn bound(f: FunctionModel, instance: usize) -> FunctionModel {
    FunctionModel { this: Some(instance), ..f }
}

pub open spec fn eval(e: Expr, this: Option<usize>, args: Seq<Value>, heap: Seq<ObjectState>) -> Result<
    Value,
    RuntimeError,
> {
    match e {
        Expr::Literal(v) => Ok(v),
        Expr::Param(i) => if i < args.len() {
            Ok(args[i as int])
        } else {
            Err(RuntimeError::MissingArgument(i))
        },
        Expr::This => match this {
            Some(h) => Ok(Value::Instance(h)),
            None => Err(RuntimeError::UnboundThis),
        },
        Expr::Field(n) => match this {
            Some(h) => read_field(heap, h, n),
            None => Err(RuntimeError::UnboundThis),
        },
    }
}

/// Runs `body` from statement `i` on: the value it returns (nil where it
/// runs off its end) or its failure, and the heap afterwards.
pub open spec fn run(
    body: Seq<Stmt>,
    i: nat,
    this: Option<usize>,
    args: Seq<Value>,
    heap: Seq<ObjectState>,
) -> (Result<Value, RuntimeError>, Seq<ObjectState>)
    decreases body.len() - i,
{
    if i >= body.len() {
        (Ok(Value::Nil), heap)
    } else {
        match body[i as int] {
            Stmt::Return(e) => (eval(e, this, args, heap), heap),
            Stmt::SetField(n, e) => match eval(e, this, args, heap) {
                Err(err) => (Err(err), heap),
                Ok(v) => match this {
                    None => (Err(RuntimeError::UnboundThis), heap),
                    Some(h) => if h >= heap.len() {
                        (Err(RuntimeError::DanglingInstance(h)), heap)
                    } else {
                        run(body, i + 1, this, args, write_field(heap, h, n@, v))
                    },
                },
            },
        }
    }
}

/// What calling `f` with `args` gives, and the heap afterwards.
pub open spec fn invoke(f: FunctionModel, args: Seq<Value>, heap: Seq<ObjectState>) -> (
    Result<Value, RuntimeError>,
    Seq<ObjectState>,
) {
    run(f.body, 0, f.this, args, heap)
}

/// A body running with `this` bound to `a` neither reads nor writes the
/// instance `b`: with `b` replaced, it gives the same result and the same
/// heap but for `b`.
proof fn lemma_run_frame(
    body: Seq<Stmt>,
    i: nat,
    a: usize,
    args: Seq<Value>,
    heap: Seq<ObjectState>,
    b: usize,
    other: ObjectState,
)
    requires
        a != b,
        b < heap.len(),
    ensures
        run(body, i, Some(a), args, heap).1.len() == heap.len(),
        run(body, i, Some(a), args, heap).1[b as int] == heap[b as int],
        run(body, i, Some(a), args, heap.update(b as int, other)) == (
            run(body, i, Some(a), args, heap).0,
            run(body, i, Some(a), args, heap).1.update(b as int, other),
        ),
    decreases body.len() - i,
{
    let changed = heap.update(b as int, other);
    if i < body.len() {
        match body[i as int] {
            Stmt::Return(e) => {},
            Stmt::SetField(n, e) => {
                match eval(e, Some(a), args, heap) {
                    Err(_) => {},
                    Ok(v) => {
                        if a < heap.len() {
                            let next = write_field(heap, a, n@, v);
                            assert(write_field(changed, a, n@, v) =~= next.update(b as int, other));
                            lemma_run_frame(body, i + 1, a, args, next, b, other);
                        }
                    },
                }
            },
        }
    }
}

/// One method bound to two different instances `a` and `b`: a call through
/// the binding to `a` leaves `b` as it was, and gives the same result
/// whatever `b` holds.
pub proof fn lemma_bound_calls_independent(
    f: FunctionModel,
    a: usize,
    b: usize,
    args: Seq<Value>,
    heap: Seq<ObjectState>,
    other: ObjectState,
)
    requires
        a != b,
        b < heap.len(),
    ensures
        invoke(bound(f, a), args, heap).1.len() == heap.len(),
        invoke(bound(f, a), args, heap).1[b as int] == heap[b as int],
        invoke(bound(f, a), args, heap.update(b as int, other)).0 == invoke(bound(f, a), args, heap).0,
{
    lemma_run_frame(f.body, 0, a, args, heap, b, other);
}

/// A user-defined function or method: a parameter count and a body, and,
/// once bound, the instance that `this` names inside the body.
pub struct LoxFunction {
    name: String,
    params: usize,
    body: Rc<Vec<Stmt>>,
    this: Option<usize>,
}

impl View for LoxFunction {
    type V = FunctionModel;

    closed spec fn view(&self) -> FunctionModel {
        FunctionModel { name: self.name@, arity: self.params as nat, body: (*self.body)@, this: self.this }
    }
}

/// Evaluates `e` in a frame with `this` and `args`.
fn evaluate(e: &Expr, this: Option<usize>, args: &Vec<Value>, interpreter: &Interpreter) -> (r: Result<
    Value,
    RuntimeError,
>)
    ensures
        r == eval(*e, this, args@, interpreter@),
{
    match e {
        Expr::Literal(v) => Ok(v.duplicate()),
        Expr::Param(i) => if *i < args.len() {
            Ok(args[*i].duplicate())
        } else {
            Err(RuntimeError::MissingArgument(*i))
        },
        Expr::This => match this {
            Some(h) => Ok(Value::Instance(h)),
            None => Err(RuntimeError::UnboundThis),
        },
        Expr::Field(n) => match this {
            Some(h) => interpreter.get_field(h, n),
            None => Err(RuntimeError::UnboundThis),
        },
    }
}

impl LoxFunction {
    /// An unbound function named `name` with `params` parameters.
    pub fn new(name: String, params: usize, body: Vec<Stmt>) -> (r: LoxFunction)
        ensures
            r@ == (FunctionModel { name: name@, arity: params as nat, body: body@, this: None }),
    {
        LoxFunction { name, params, body: Rc::new(body), this: None }
    }

    /// A new function whose `this` is `instance`; `self` is left as it is.
    pub fn bind(&self, instance: usize) -> (r: LoxFunction)
        ensures
            r@ == bound(self@, instance),
    {
        LoxFunction {
            name: self.name.clone(),
            params: self.params,
            body: Rc::clone(&self.body),
            this: Some(instance),
        }
    }

    /// The instance that `this` is bound to, if any.
    pub fn this_binding(&self) -> (r: Option<usize>)
        ensures
            r == self@.this,
    {
        self.this
    }

}

impl LoxCallable for LoxFunction {
    open spec fn spec_arity(&self) -> nat {
        self@.arity
    }

    open spec fn spec_name(&self) -> Seq<char> {
        self@.name
    }

    open spec fn accepts(&self, args: Seq<Value>, heap: Seq<ObjectState>) -> bool {
        args.len() == self@.arity
    }

    open spec fn outcome(&self, args: Seq<Value>, heap: Seq<ObjectState>) -> (
        Result<Value, RuntimeError>,
        Seq<ObjectState>,
    ) {
        invoke(self@, args, heap)
    }

    /// Runs the body with the parameters bound to `arguments`. A failure in
    /// the body, and a value it returns, reach the caller unchanged.
    fn call(&self, interpreter: &mut Interpreter, arguments: Vec<Value>) -> Result<Value, RuntimeError> {
        let body: &Vec<Stmt> = &self.body;
        let mut i: usize = 0;
        while i < body.len()
            invariant
                i <= body@.len(),
                body@ == self@.body,
                self@.this == self.this,
                invoke(self@, arguments@, old(interpreter)@) == run(
                    body@,
                    i as nat,
                    self.this,
                    arguments@,
                    interpreter@,
                ),
            decreases body@.len() - i,
        {
            match &body[i] {
                Stmt::Return(e) => {
                    return evaluate(e, self.this, &arguments, interpreter);
                },
                Stmt::SetField(n, e) => {
                    let v = match evaluate(e, self.this, &arguments, interpreter) {
                        Ok(v) => v,
                        Err(err) => {
                            return Err(err);
                        },
                    };
                    let h = match self.this {
                        Some(h) => h,
                        None => {
                            return Err(RuntimeError::UnboundThis);
                        },
                    };
                    if h >= interpreter.instance_count() {
                        return Err(RuntimeError::DanglingInstance(h));
                    }
                    interpreter.set_field(h, n.clone(), v);
                },
            }
            i = i + 1;
        }
        Ok(Value::Nil)
    }

    /// The declared parameter count.
    fn arity(&self) -> usize {
        self.params
    }

    fn name(&self) -> &str {
        self.name.as_str()
    }
}

} // verus!
