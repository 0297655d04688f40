use vstd::prelude::*;
use crate::interpreter::{Interpreter, ObjectState};
use crate::value::{RuntimeError, Value};

verus! {

/// What the evaluator can call: classes, which construct, and functions.
pub trait LoxCallable {
    /// The number of arguments a call takes.
    spec fn spec_arity(&self) -> nat;

    spec fn spec_name(&self) -> Seq<char>;

    /// When a call with `args` against `heap` may be made.
    spec fn accepts(&self, args: Seq<Value>, heap: Seq<ObjectState>) -> bool;

    /// What a call with `args` gives, and the heap afterwards.
    spec fn outcome(&self, args: Seq<Value>, heap: Seq<ObjectState>) -> (
        Result<Value, RuntimeError>,
        Seq<ObjectState>,
    );

    /// Calls with `arguments`; the caller has checked their count against
    /// `arity`.
    fn call(&self, interpreter: &mut Interpreter, arguments: Vec<Value>) -> (r: Result<
        Value,
        RuntimeError,
    >)
        requires
            self.accepts(arguments@, old(interpreter)@),
        ensures
            (r, final(interpreter)@) == self.outcome(arguments@, old(interpreter)@),
    ;

    fn arity(&self) -> (r: usize)
        ensures
            r == self.spec_arity(),
    ;

    fn name(&self) -> (r: &str)
        ensures
            r@ == self.spec_name(),
    ;
}

} // verus!
