use crate::compiler::chunk::Chunk;
use crate::compiler::value::{chunk_view, ChunkView, function_view, FunctionView, Value, ValueView};
use std::rc::Rc;
use vstd::hash_map::StringHashMap;
use vstd::prelude::*;

verus! {

/// What a compiled function is: a closure, a named function, or the
/// top-level script.
#[derive(Debug, PartialEq, Eq, Structural, Clone, Copy)]
pub enum GreenFunctionType {
    Closure,
    Function,
    Script,
}

/// A function as the machine calls it. It captures nothing: it only points
/// at the compiled function.
#[derive(Debug)]
pub struct GreenClosure {
    pub function: Rc<GreenFunction>,
}

impl View for GreenClosure {
    type V = FunctionView;

    open spec fn view(&self) -> FunctionView {
        function_view(*self.function)
    }
}

impl GreenClosure {
    /// A closure over `function`.
    pub fn new(function: Rc<GreenFunction>) -> (c: GreenClosure)
        ensures
            c.function == function,
            c@ == function@,
    {
        GreenClosure { function }
    }
}

/// A compiled function: its name, its bytecode, and how many parameters it
/// declares.
#[derive(Debug)]
pub struct GreenFunction {
    pub name: String,
    pub chunk: Chunk,
    pub arity: u8,
}

impl View for GreenFunction {
    type V = FunctionView;

    open spec fn view(&self) -> FunctionView {
        function_view(*self)
    }
}

impl GreenFunction {
    /// A function with no name, no code and no parameters.
    pub fn new() -> (f: GreenFunction)
        ensures
            f@ == (FunctionView { name: Seq::<char>::empty(), arity: 0, chunk: ChunkView::empty() }),
    {
        let f = GreenFunction { name: String::new(), chunk: Chunk::new(), arity: 0 };
        proof {
            assert(chunk_view(f.chunk) == f.chunk@);
        }
        f
    }

    /// The function's bytecode.
    pub fn chunk(&self) -> (c: &Chunk)
        ensures
            *c == self.chunk,
    {
        &self.chunk
    }

    /// How many parameters the function declares.
    pub fn arity(&self) -> (a: &u8)
        ensures
            *a == self.arity,
    {
        &self.arity
    }

    /// The function's name, to be set.
    pub fn name_mut(&mut self) -> (n: &mut String)
        ensures
            *n == old(self).name,
            final(self).name == *final(n),
            final(self).chunk == old(self).chunk,
            final(self).arity == old(self).arity,
    {
        &mut self.name
    }

    /// The function's bytecode, to be written.
    pub fn chunk_mut(&mut self) -> (c: &mut Chunk)
        ensures
            *c == old(self).chunk,
            final(self).chunk == *final(c),
            final(self).name == old(self).name,
            final(self).arity == old(self).arity,
    {
        &mut self.chunk
    }

    /// The function's parameter count, to be set.
    pub fn arity_mut(&mut self) -> (a: &mut u8)
        ensures
            *a == old(self).arity,
            final(self).arity == *final(a),
            final(self).name == old(self).name,
            final(self).chunk == old(self).chunk,
    {
        &mut self.arity
    }
}

/// A class: nothing but its name.
#[derive(Debug)]
pub struct Class {
    pub name: String,
}

impl Class {
    /// The class called `name`.
    pub fn new(name: String) -> (c: Class)
        ensures
            c.name == name,
    {
        Class { name }
    }
}

/// An object of a class: its class and its fields by name.
pub struct Instance {
    pub class: Rc<Class>,
    pub fields: StringHashMap<Value>,
}

/// The mathematical value of an `Instance`.
pub ghost struct InstanceView {
    pub class: Seq<char>,
    pub fields: Map<Seq<char>, ValueView>,
}

impl View for Instance {
    type V = InstanceView;

    open spec fn view(&self) -> InstanceView {
        InstanceView {
            class: self.class.name@,
            fields: self.fields@.map_values(|v: Value| v@),
        }
    }
}

impl Instance {
    /// An instance of `class` without fields.
    pub fn new(class: Rc<Class>) -> (i: Instance)
        ensures
            i.class == class,
            i@ == (InstanceView { class: class.name@, fields: Map::empty() }),
    {
        let i = Instance { class, fields: StringHashMap::new() };
        proof {
            assert(i.fields@.map_values(|v: Value| v@) =~= Map::<Seq<char>, ValueView>::empty());
        }
        i
    }

    /// The value of the field `name`, if the instance has such a field.
    pub fn get_property(&self, name: &str) -> (r: Option<Value>)
        ensures
            match r {
                Some(v) => self@.fields.contains_key(name@) && v@ == self@.fields[name@],
                None => !self@.fields.contains_key(name@),
            },
    {
        match self.fields.get(name) {
            Some(v) => Some(v.duplicate()),
            None => None,
        }
    }

    /// Sets the field `property` to `value`, creating the field if need be.
    pub fn set_property(&mut self, property: &str, value: Value)
        ensures
            final(self).class == old(self).class,
            final(self)@.fields == old(self)@.fields.insert(property@, value@),
    {
        let key = property.to_owned();
        self.fields.insert(key, value);
        proof {
            assert(self.fields@.map_values(|v: Value| v@) =~= old(self).fields@.map_values(
                |v: Value| v@,
            ).insert(property@, value@));
        }
    }
}

} // verus!
