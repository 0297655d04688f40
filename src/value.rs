use vstd::prelude::*;

verus! {

/// A runtime value. An instance is referred to by its handle in the
/// interpreter's object heap, so several values may share one instance.
#[derive(Debug, PartialEq)]
pub enum Value {
    Nil,
    Bool(bool),
    Int(i64),
    Str(String),
    Instance(usize),
}

impl Value {
    /// An equal, independent copy of this value.
    pub fn duplicate(&self) -> (r: Value)
        ensures
            r == *self,
    {
        match self {
            Value::Nil => Value::Nil,
            Value::Bool(b) => Value::Bool(*b),
            Value::Int(n) => Value::Int(*n),
            Value::Str(s) => Value::Str(s.clone()),
            Value::Instance(h) => Value::Instance(*h),
        }
    }
}

/// A failure raised while a method body runs.
#[derive(Debug, PartialEq)]
pub enum RuntimeError {
    /// A field was read that the instance does not have.
    UndefinedProperty(String),
    /// A parameter was read beyond the arguments passed.
    MissingArgument(usize),
    /// `this` was used in a function that is not bound to an instance.
    UnboundThis,
    /// A handle does not name an instance of the heap.
    DanglingInstance(usize),
}

} // verus!
