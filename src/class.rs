use vstd::prelude::*;
use std::rc::Rc;
use crate::callable::LoxCallable;
use crate::function::{bound, invoke, FunctionModel, LoxFunction};
use crate::interpreter::{Interpreter, LoxInstance, ObjectState};
use crate::value::{RuntimeError, Value};
use crate::table::NameTable;

verus! {

/// What a class is: its name, its superclass and its own methods.
pub struct ClassModel {
    pub name: Seq<char>,
    pub superclass: Option<Box<ClassModel>>,
    pub methods: Map<Seq<char>, FunctionModel>,
}

/// The table of a class's own methods.
pub type MethodMap = NameTable<Rc<LoxFunction>>;

/// Immutable class metadata, shared by its instances and subclasses.
pub struct LoxClass {
    name: String,
    superclass: Option<Rc<LoxClass>>,
    methods: Rc<MethodMap>,
}

pub closed spec fn class_model(c: LoxClass) -> ClassModel
    decreases c,
{
    ClassModel {
        name: c.name@,
        superclass: match c.superclass {
            Some(s) => Some(Box::new(class_model(*s))),
            None => None,
        },
        methods: method_models((*c.methods)@),
    }
}

/// What each method of a table is.
pub open spec fn method_models(m: Map<Seq<char>, Rc<LoxFunction>>) -> Map<Seq<char>, FunctionModel> {
    m.map_values(|f: Rc<LoxFunction>| (*f)@)
}

/// The reserved name of the initializer.
pub open spec fn init_name() -> Seq<char> {
    seq!['i', 'n', 'i', 't']
}

/// The method that `name` resolves to on `c`: its own, else what its
/// superclass resolves it to.
pub open spec fn resolve(c: ClassModel, name: Seq<char>) -> Option<FunctionModel>
    decreases c,
{
    if c.methods.contains_key(name) {
        Some(c.methods[name])
    } else {
        match c.superclass {
            Some(s) => resolve(*s, name),
            None => None,
        }
    }
}

/// The method that `name` resolves to on `c`, bound to `instance`.
pub open spec fn resolve_bound(c: ClassModel, name: Seq<char>, instance: usize) -> Option<FunctionModel> {
    match resolve(c, name) {
        Some(f) => Some(bound(f, instance)),
        None => None,
    }
}

/// The initializer of `c`, looked up in its own table only.
pub open spec fn initializer_of(c: ClassModel) -> Option<FunctionModel> {
    if c.methods.contains_key(init_name()) {
        Some(c.methods[init_name()])
    } else {
        None
    }
}

/// How many arguments constructing `c` takes.
pub open spec fn class_arity(c: ClassModel) -> nat {
    match initializer_of(c) {
        Some(f) => f.arity,
        None => 0,
    }
}

/// What constructing `c` with `args` gives, and the heap afterwards: a new
/// instance with no fields goes on the heap; the initializer, if any, runs
/// bound to it; the result is that instance, or the initializer's failure.
pub open spec fn construct(c: ClassModel, args: Seq<Value>, heap: Seq<ObjectState>) -> (
    Result<Value, RuntimeError>,
    Seq<ObjectState>,
) {
    let handle = heap.len() as usize;
    let start = heap.push(ObjectState { class: c, fields: Map::empty() });
    match initializer_of(c) {
        None => (Ok(Value::Instance(handle)), start),
        Some(f) => {
            let (res, after) = invoke(bound(f, handle), args, start);
            match res {
                Ok(_) => (Ok(Value::Instance(handle)), after),
                Err(e) => (Err(e), after),
            }
        },
    }
}

impl View for LoxClass {
    type V = ClassModel;

    closed spec fn view(&self) -> ClassModel {
        class_model(*self)
    }
}

/// The class `k` steps up the superclass chain of `c`, if the chain is that
/// long.
pub open spec fn ancestor(c: ClassModel, k: nat) -> Option<ClassModel>
    decreases k,
{
    if k == 0 {
        Some(c)
    } else {
        match c.superclass {
            Some(s) => ancestor(*s, (k - 1) as nat),
            None => None,
        }
    }
}

/// A method that no class below ancestor `k` defines is found through `c`
/// as that ancestor's method, bound to the instance the lookup started with,
/// not to one of the ancestor's own.
pub proof fn lemma_inherited_method_binds_original(
    c: ClassModel,
    k: nat,
    name: Seq<char>,
    instance: usize,
)
    requires
        ancestor(c, k) is Some,
        ancestor(c, k)->Some_0.methods.contains_key(name),
        forall|j: nat|
            j < k ==> !(#[trigger] ancestor(c, j))->Some_0.methods.contains_key(name),
    ensures
        resolve_bound(c, name, instance) == Some(
            bound(ancestor(c, k)->Some_0.methods[name], instance),
        ),
        resolve_bound(c, name, instance)->Some_0.this == Some(instance),
    decreases k,
{
    if k > 0 {
        assert(ancestor(c, 0) == Some(c));
        let s = *c.superclass->Some_0;
        assert forall|j: nat| j < (k - 1) as nat implies !(#[trigger] ancestor(s, j))->Some_0.methods.contains_key(name) by {
            assert(ancestor(c, j + 1) == ancestor(s, j));
        }
        lemma_inherited_method_binds_original(s, (k - 1) as nat, name, instance);
    }
}

/// A class without its own initializer takes no arguments, and constructing
/// it gives a new instance of it with no fields.
pub proof fn lemma_construct_without_initializer(c: ClassModel, heap: Seq<ObjectState>)
    requires
        initializer_of(c) is None,
        heap.len() < usize::MAX,
    ensures
        class_arity(c) == 0,
        construct(c, Seq::empty(), heap) == (
            Ok::<Value, RuntimeError>(Value::Instance(heap.len() as usize)),
            heap.push(ObjectState { class: c, fields: Map::empty() }),
        ),
{
}

/// A class whose own initializer takes `n` parameters takes `n` arguments;
/// constructing it succeeds exactly when that initializer, bound to the new
/// instance, runs without failure.
pub proof fn lemma_construct_with_initializer(c: ClassModel, args: Seq<Value>, heap: Seq<ObjectState>)
    requires
        initializer_of(c) is Some,
        args.len() == initializer_of(c)->Some_0.arity,
        heap.len() < usize::MAX,
    ensures
        class_arity(c) == initializer_of(c)->Some_0.arity,
        construct(c, args, heap).0 is Ok <==> invoke(
            bound(initializer_of(c)->Some_0, heap.len() as usize),
            args,
            heap.push(ObjectState { class: c, fields: Map::empty() }),
        ).0 is Ok,
{
}

/// Whatever a construction's initializer returns, a construction that
/// succeeds gives the new instance.
pub proof fn lemma_construct_gives_new_instance(c: ClassModel, args: Seq<Value>, heap: Seq<ObjectState>)
    requires
        heap.len() < usize::MAX,
    ensures
        construct(c, args, heap).0 is Ok ==> construct(c, args, heap).0 == Ok::<Value, RuntimeError>(
            Value::Instance(heap.len() as usize),
        ),
{
}

impl LoxClass {
    pub fn new(name: String, superclass: Option<Rc<LoxClass>>, methods: MethodMap) -> (r: LoxClass)
        ensures
            r@ == (ClassModel {
                name: name@,
                superclass: match superclass {
                    Some(s) => Some(Box::new((*s)@)),
                    None => None,
                },
                methods: method_models(methods@),
            }),
    {
        LoxClass { name, superclass, methods: Rc::new(methods) }
    }

    /// An equal copy that shares the superclass and the method table.
    pub fn duplicate(&self) -> (r: LoxClass)
        ensures
            r == *self,
    {
        let superclass = match &self.superclass {
            Some(s) => Some(Rc::clone(s)),
            None => None,
        };
        LoxClass { name: self.name.clone(), superclass, methods: Rc::clone(&self.methods) }
    }

    /// Resolves `name` along the superclass chain and binds the method found
    /// to `instance`, the same instance at every level.
    pub fn get_method(&self, name: &str, instance: usize) -> (r: Option<Rc<LoxFunction>>)
        ensures
            match r {
                Some(m) => resolve_bound(self@, name@, instance) == Some((*m)@),
                None => resolve_bound(self@, name@, instance) is None,
            },
        decreases *self,
    {
        if let Some(method) = self.methods.get(name) {
            return Some(Rc::new(method.bind(instance)));
        }
        match &self.superclass {
            Some(superclass) => superclass.get_method(name, instance),
            None => None,
        }
    }

    /// The initializer in this class's own table.
    fn initializer(&self) -> (r: Option<Rc<LoxFunction>>)
        ensures
            match r {
                Some(f) => initializer_of(self@) == Some((*f)@),
                None => initializer_of(self@) is None,
            },
    {
        proof {
            reveal_strlit("init");
            assert("init"@ =~= init_name());
        }
        match self.methods.get("init") {
            Some(f) => Some(Rc::clone(f)),
            None => None,
        }
    }

    /// The class as it is displayed: its name.
    pub fn to_string(&self) -> (r: String)
        ensures
            r@ == self@.name,
    {
        self.name.clone()
    }
}

impl LoxCallable for LoxClass {
    open spec fn spec_arity(&self) -> nat {
        class_arity(self@)
    }

    open spec fn spec_name(&self) -> Seq<char> {
        self@.name
    }

    open spec fn accepts(&self, args: Seq<Value>, heap: Seq<ObjectState>) -> bool {
        args.len() == class_arity(self@) && heap.len() < usize::MAX
    }

    open spec fn outcome(&self, args: Seq<Value>, heap: Seq<ObjectState>) -> (
        Result<Value, RuntimeError>,
        Seq<ObjectState>,
    ) {
        construct(self@, args, heap)
    }

    /// Constructs an instance: see `construct`. Whatever the initializer
    /// returns is dropped; the result is the new instance.
    fn call(&self, interpreter: &mut Interpreter, arguments: Vec<Value>) -> Result<Value, RuntimeError> {
        let instance = interpreter.allocate(LoxInstance::new(self.duplicate()));
        if let Some(initializer) = self.initializer() {
            initializer.bind(instance).call(interpreter, arguments)?;
        }
        Ok(Value::Instance(instance))
    }

    /// The initializer's parameter count, or 0 where there is none.
    fn arity(&self) -> usize {
        match self.initializer() {
            Some(initializer) => initializer.arity(),
            None => 0,
        }
    }

    fn name(&self) -> &str {
        self.name.as_str()
    }
}

} // verus!
