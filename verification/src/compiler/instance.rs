use crate::compiler::local::{Local, LocalView};
use crate::compiler::object::{GreenFunction, GreenFunctionType};
use crate::compiler::value::{ChunkView, FunctionView};
use vstd::prelude::*;

verus! {

/// The most local slots that one function can have: a slot is one byte.
pub const MAX_LOCALS: usize = 256;

/// The deepest scope nesting that the compiler follows.
pub const MAX_SCOPE_DEPTH: isize = 0x7fff_fff0;

/// The state of compiling one function: the function so far, the locals in
/// scope in declaration order, and the depth of the current scope.
#[derive(Debug)]
pub struct CompilerInstance {
    pub function: GreenFunction,
    pub function_type: GreenFunctionType,
    pub locals: Vec<Local>,
    pub scope_depth: isize,
}

/// The mathematical value of a `CompilerInstance`.
pub ghost struct CompilerView {
    pub function: FunctionView,
    pub kind: GreenFunctionType,
    pub locals: Seq<LocalView>,
    pub depth: int,
}

impl View for CompilerInstance {
    type V = CompilerView;

    open spec fn view(&self) -> CompilerView {
        CompilerView {
            function: self.function@,
            kind: self.function_type,
            locals: self.locals@.map_values(|l: Local| l@),
            depth: self.scope_depth as int,
        }
    }
}

impl CompilerView {
    /// The state in which compiling a function of the given kind starts:
    /// no code, and slot 0 taken by the function itself, under no name.
    pub open spec fn fresh(kind: GreenFunctionType) -> CompilerView {
        CompilerView {
            function: FunctionView { name: Seq::empty(), arity: 0, chunk: ChunkView::empty() },
            kind,
            locals: seq![LocalView { name: Seq::empty(), depth: 0 }],
            depth: 0,
        }
    }
}

impl CompilerInstance {
    /// The state in which compiling a function of kind `function_type`
    /// starts.
    pub fn new(function_type: GreenFunctionType) -> (c: CompilerInstance)
        ensures
            c@ == CompilerView::fresh(function_type),
    {
        let mut locals: Vec<Local> = Vec::new();
        locals.push(Local::new(String::new(), 0));
        let c = CompilerInstance {
            function: GreenFunction::new(),
            function_type,
            locals,
            scope_depth: 0,
        };
        proof {
            assert(c@.locals =~= seq![LocalView { name: Seq::empty(), depth: 0 }]);
        }
        c
    }

    pub fn function(&self) -> (f: &GreenFunction)
        ensures
            *f == self.function,
    {
        &self.function
    }

    pub fn function_mut(&mut self) -> (f: &mut GreenFunction)
        ensures
            *f == old(self).function,
            final(self).function == *final(f),
            final(self).function_type == old(self).function_type,
            final(self).locals == old(self).locals,
            final(self).scope_depth == old(self).scope_depth,
    {
        &mut self.function
    }

    pub fn function_type(&self) -> (t: &GreenFunctionType)
        ensures
            *t == self.function_type,
    {
        &self.function_type
    }

    pub fn locals(&self) -> (l: &Vec<Local>)
        ensures
            *l == self.locals,
    {
        &self.locals
    }

    pub fn locals_mut(&mut self) -> (l: &mut Vec<Local>)
        ensures
            *l == old(self).locals,
            final(self).locals == *final(l),
            final(self).function == old(self).function,
            final(self).function_type == old(self).function_type,
            final(self).scope_depth == old(self).scope_depth,
    {
        &mut self.locals
    }

    pub fn scope_depth(&self) -> (d: &isize)
        ensures
            *d == self.scope_depth,
    {
        &self.scope_depth
    }

    pub fn scope_depth_mut(&mut self) -> (d: &mut isize)
        ensures
            *d == old(self).scope_depth,
            final(self).scope_depth == *final(d),
            final(self).function == old(self).function,
            final(self).function_type == old(self).function_type,
            final(self).locals == old(self).locals,
    {
        &mut self.scope_depth
    }
}

} // verus!
