use crate::compiler::chunk::Chunk;
use crate::compiler::object::{Class, GreenClosure, GreenFunction};
use crate::vm::errors::RuntimeError;
use std::rc::Rc;
use vstd::prelude::*;

verus! {

/// A runtime or constant value.
///
/// A number is an IEEE-754 binary64 value, held as its bit pattern. An
/// instance is a handle into the heap of the machine that created it.
#[derive(Debug)]
pub enum Value {
    Number(u64),
    True,
    False,
    Nil,
    String(String),
    Array(Vec<Value>),
    Closure(Rc<GreenClosure>),
    Function(Rc<GreenFunction>),
    Class(Rc<Class>),
    Instance(usize),
}

/// The mathematical value of a `Value`.
pub ghost enum ValueView {
    Number(u64),
    True,
    False,
    Nil,
    String(Seq<char>),
    Array(Seq<ValueView>),
    Closure(FunctionView),
    Function(FunctionView),
    Class(Seq<char>),
    Instance(usize),
}

/// The mathematical value of a `GreenFunction`.
pub ghost struct FunctionView {
    pub name: Seq<char>,
    pub arity: u8,
    pub chunk: ChunkView,
}

/// The mathematical value of a `Chunk`.
pub ghost struct ChunkView {
    pub name: Option<Seq<char>>,
    pub code: Seq<u8>,
    pub constants: Seq<ValueView>,
    pub lines: Seq<usize>,
}

/// The view of a value, by recursion on its structure.
pub open spec fn value_view(v: Value) -> ValueView
    decreases v,
{
    match v {
        Value::Number(n) => ValueView::Number(n),
        Value::True => ValueView::True,
        Value::False => ValueView::False,
        Value::Nil => ValueView::Nil,
        Value::String(s) => ValueView::String(s@),
        Value::Array(a) => ValueView::Array(values_view(a@)),
        Value::Closure(c) => ValueView::Closure(function_view(*c.function)),
        Value::Function(f) => ValueView::Function(function_view(*f)),
        Value::Class(c) => ValueView::Class(c.name@),
        Value::Instance(h) => ValueView::Instance(h),
    }
}

/// The views of a sequence of values, element by element.
pub open spec fn values_view(vs: Seq<Value>) -> Seq<ValueView>
    decreases vs,
{
    Seq::new(
        vs.len(),
        |i: int|
            if 0 <= i < vs.len() {
                value_view(vs[i])
            } else {
                ValueView::Nil
            },
    )
}

/// The view of a function: its name, its arity and its chunk's view.
pub open spec fn function_view(f: GreenFunction) -> FunctionView
    decreases f,
{
    FunctionView { name: f.name@, arity: f.arity, chunk: chunk_view(f.chunk) }
}

/// The view of a chunk: its bytes, its lines and its constants' views.
pub open spec fn chunk_view(c: Chunk) -> ChunkView
    decreases c,
{
    ChunkView {
        name: match c.name {
            Some(n) => Some(n@),
            None => None,
        },
        code: c.code@,
        constants: values_view(c.constants@),
        lines: c.lines@,
    }
}

impl View for Value {
    type V = ValueView;

    open spec fn view(&self) -> ValueView {
        value_view(*self)
    }
}

impl ValueView {
    /// Whether the value counts as true in a condition: everything but
    /// `False` and `Nil` does.
    pub open spec fn truthy(self) -> bool {
        !(self is False || self is Nil)
    }

    /// The value that stands for a boolean.
    pub open spec fn of_bool(b: bool) -> ValueView {
        if b {
            ValueView::True
        } else {
            ValueView::False
        }
    }
}

/// `values_view` keeps the length and maps each element to its view.
pub proof fn lemma_values_view(vs: Seq<Value>)
    ensures
        values_view(vs).len() == vs.len(),
        forall|i: int| 0 <= i < vs.len() ==> #[trigger] values_view(vs)[i] == vs[i]@,
        forall|v: Value| #[trigger] values_view(vs.push(v)) == values_view(vs).push(v@),
{
    assert forall|v: Value| #[trigger] values_view(vs.push(v)) == values_view(vs).push(v@) by {
        assert(values_view(vs.push(v)) =~= values_view(vs).push(v@));
    }
}

/// `Rc::clone`: a second pointer to the same allocation. Nothing is copied,
/// so the result points at the value that `p` points at.
#[verifier::external_body]
pub(crate) fn share<T>(p: &Rc<T>) -> (r: Rc<T>)
    ensures
        r == *p,
{
    Rc::clone(p)
}

impl Value {
    /// A string value.
    pub fn string(s: String) -> (v: Value)
        ensures
            v@ == ValueView::String(s@),
    {
        Value::String(s)
    }

    /// The text of a string value.
    pub fn as_string(&self) -> (s: &String)
        requires
            self@ is String,
        ensures
            self@ == ValueView::String(s@),
    {
        match self {
            Value::String(s) => s,
            _ => {
                proof {
                    assert(false);
                }
                unreached()
            },
        }
    }

    /// The heap handle of an instance; a type error for any other value.
    pub fn as_instance(self) -> (r: Result<usize, RuntimeError>)
        ensures
            match r {
                Ok(h) => self@ == ValueView::Instance(h),
                Err(e) => !(self@ is Instance) && e@ == crate::vm::errors::RuntimeErrorView::ArgumentTypes,
            },
    {
        match self {
            Value::Instance(i) => Ok(i),
            _ => Err(RuntimeError::ArgumentTypes),
        }
    }

    /// The bit pattern of a number value.
    pub fn as_number(self) -> (n: u64)
        requires
            self@ is Number,
        ensures
            self@ == ValueView::Number(n),
    {
        match self {
            Value::Number(n) => n,
            _ => {
                proof {
                    assert(false);
                }
                unreached()
            },
        }
    }

    /// The elements of an array value.
    pub fn as_array(self) -> (a: Vec<Value>)
        requires
            self@ is Array,
        ensures
            self@ == ValueView::Array(values_view(a@)),
    {
        match self {
            Value::Array(a) => a,
            _ => {
                proof {
                    assert(false);
                }
                unreached()
            },
        }
    }

    /// Whether the value is an instance.
    pub fn is_instance(&self) -> (b: bool)
        ensures
            b == (self@ is Instance),
    {
        match self {
            Value::Instance(_) => true,
            _ => false,
        }
    }

    /// Whether the value is a number.
    pub fn is_number(&self) -> (b: bool)
        ensures
            b == (self@ is Number),
    {
        match self {
            Value::Number(_) => true,
            _ => false,
        }
    }

    /// Whether the value counts as true in a condition.
    pub fn is_truthy(&self) -> (b: bool)
        ensures
            b == self@.truthy(),
    {
        match self {
            Value::False | Value::Nil => false,
            _ => true,
        }
    }

    /// The value that stands for a boolean.
    pub fn from_bool(b: bool) -> (v: Value)
        ensures
            v@ == ValueView::of_bool(b),
    {
        if b {
            Value::True
        } else {
            Value::False
        }
    }

    /// A copy of the value. Functions, closures and classes are shared, not
    /// copied; an array is copied element by element.
    pub fn duplicate(&self) -> (v: Value)
        ensures
            v@ == self@,
        decreases *self,
    {
        match self {
            Value::Number(n) => Value::Number(*n),
            Value::True => Value::True,
            Value::False => Value::False,
            Value::Nil => Value::Nil,
            Value::String(s) => Value::String(s.clone()),
            Value::Array(a) => {
                let mut out: Vec<Value> = Vec::new();
                let mut i: usize = 0;
                while i < a.len()
                    invariant
                        i <= a.len(),
                        *self == Value::Array(*a),
                        out@.len() == i,
                        forall|j: int| 0 <= j < i ==> #[trigger] out@[j]@ == a@[j]@,
                    decreases a.len() - i,
                {
                    proof {
                        vstd::std_specs::vec::axiom_vec_index_decreases(*a, i as int);
                        assert(self->Array_0 == *a);
                        assert(decreases_to!(*self => self->Array_0));
                    }
                    let item = a[i].duplicate();
                    out.push(item);
                    i += 1;
                }
                proof {
                    lemma_values_view(out@);
                    lemma_values_view(a@);
                    assert(values_view(out@) =~= values_view(a@));
                }
                Value::Array(out)
            },
            Value::Closure(c) => Value::Closure(share(c)),
            Value::Function(f) => Value::Function(share(f)),
            Value::Class(c) => Value::Class(share(c)),
            Value::Instance(h) => Value::Instance(*h),
        }
    }
}

} // verus!
