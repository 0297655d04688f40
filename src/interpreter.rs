use vstd::prelude::*;
use crate::class::{ClassModel, LoxClass};
use crate::table::NameTable;
use crate::value::{RuntimeError, Value};

verus! {

/// What an instance is: the class that made it and its fields.
pub struct ObjectState {
    pub class: ClassModel,
    pub fields: Map<Seq<char>, Value>,
}

/// A runtime object: the class that produced it and a table of fields.
pub struct LoxInstance {
    class: LoxClass,
    fields: NameTable<Value>,
}

impl View for LoxInstance {
    type V = ObjectState;

    closed spec fn view(&self) -> ObjectState {
        ObjectState { class: self.class@, fields: self.fields@ }
    }
}

impl LoxInstance {
    /// An instance of `class` with no fields.
    pub fn new(class: LoxClass) -> (r: LoxInstance)
        ensures
            r@ == (ObjectState { class: class@, fields: Map::empty() }),
    {
        LoxInstance { class, fields: NameTable::new() }
    }
}

/// The state that method bodies run against: the heap of instances, each
/// named by its position.
pub struct Interpreter {
    instances: Vec<LoxInstance>,
}

impl View for Interpreter {
    type V = Seq<ObjectState>;

    closed spec fn view(&self) -> Seq<ObjectState> {
        self.instances@.map_values(|o: LoxInstance| o@)
    }
}

/// What reading field `name` of the instance `handle` gives.
pub open spec fn read_field(heap: Seq<ObjectState>, handle: usize, name: String) -> Result<
    Value,
    RuntimeError,
> {
    if handle >= heap.len() {
        Err(RuntimeError::DanglingInstance(handle))
    } else if heap[handle as int].fields.contains_key(name@) {
        Ok(heap[handle as int].fields[name@])
    } else {
        Err(RuntimeError::UndefinedProperty(name))
    }
}

/// The heap after field `name` of the instance `handle` is set to `value`.
pub open spec fn write_field(heap: Seq<ObjectState>, handle: usize, name: Seq<char>, value: Value) -> Seq<
    ObjectState,
> {
    heap.update(
        handle as int,
        ObjectState {
            class: heap[handle as int].class,
            fields: heap[handle as int].fields.insert(name, value),
        },
    )
}

impl Interpreter {
    pub fn new() -> (r: Interpreter)
        ensures
            r@ == Seq::<ObjectState>::empty(),
    {
        let r = Interpreter { instances: Vec::new() };
        assert(r@ =~= Seq::<ObjectState>::empty());
        r
    }

    /// How many instances the heap holds.
    pub fn instance_count(&self) -> (r: usize)
        ensures
            r == self@.len(),
    {
        self.instances.len()
    }

    /// Puts `instance` on the heap and returns its handle.
    pub fn allocate(&mut self, instance: LoxInstance) -> (r: usize)
        requires
            old(self)@.len() < usize::MAX,
        ensures
            r == old(self)@.len(),
            final(self)@ == old(self)@.push(instance@),
    {
        let r = self.instances.len();
        self.instances.push(instance);
        assert(self@ =~= old(self)@.push(instance@));
        r
    }

    /// Reads field `name` of the instance `handle`.
    pub fn get_field(&self, handle: usize, name: &String) -> (r: Result<Value, RuntimeError>)
        ensures
            r == read_field(self@, handle, *name),
    {
        if handle >= self.instances.len() {
            return Err(RuntimeError::DanglingInstance(handle));
        }
        match self.instances[handle].fields.get(name.as_str()) {
            Some(v) => Ok(v.duplicate()),
            None => Err(RuntimeError::UndefinedProperty(name.clone())),
        }
    }

    /// Sets field `name` of the instance `handle` to `value`.
    pub fn set_field(&mut self, handle: usize, name: String, value: Value)
        requires
            handle < old(self)@.len(),
        ensures
            final(self)@ == write_field(old(self)@, handle, name@, value),
    {
        let ghost k = name@;
        self.instances[handle].fields.insert(name, value);
        assert(self@ =~= write_field(old(self)@, handle, k, value));
    }
}

} // verus!
